use vstd::prelude::*;

verus! {

/// One mounted disk as the system lists it: where it is mounted, its size and
/// the space still available on it, in bytes.
pub struct DiskSample {
    pub mount_point: String,
    pub total_space: u64,
    pub available_space: u64,
}

/// The (total, available) pair that a snapshot reports for a disk.
pub open spec fn space_of(d: DiskSample) -> (u64, u64) {
    (d.total_space, d.available_space)
}

/// `r` is the space of the disk a snapshot reports, where `roots[i]` says whether
/// `disks[i]` is mounted at the system root: the first root disk; failing that, the
/// largest disk (the last of equally large ones); failing that, no space at all.
pub open spec fn is_reported_space(roots: Seq<bool>, disks: Seq<DiskSample>, r: (u64, u64)) -> bool {
    if exists|i: int| 0 <= i < disks.len() && #[trigger] roots[i] {
        exists|i: int|
            {
                &&& 0 <= i < disks.len()
                &&& #[trigger] roots[i]
                &&& forall|k: int| 0 <= k < i ==> !roots[k]
                &&& r == space_of(disks[i])
            }
    } else if disks.len() > 0 {
        exists|i: int|
            {
                &&& 0 <= i < disks.len()
                &&& forall|k: int|
                    0 <= k < disks.len() ==> #[trigger] disks[k].total_space
                        <= disks[i].total_space
                &&& forall|k: int| i < k < disks.len() ==> #[trigger] disks[k].total_space < disks[i].total_space
                &&& r == space_of(#[trigger] disks[i])
            }
    } else {
        r == (0u64, 0u64)
    }
}

/// `c` separates path components (`/`, or `\` on Windows) or is a dot, which
/// path parsing may drop (`.` components) or keep (`..` and names).
pub open spec fn is_separator_or_dot(c: char) -> bool {
    c == '/' || c == '\\' || c == '.'
}

/// `c` with an ASCII capital letter made small.
pub open spec fn ascii_lower(c: char) -> char {
    if 'A' <= c <= 'Z' {
        ((c as u32) + 32) as char
    } else {
        c
    }
}

/// The characters of a path text that no platform's path syntax treats as
/// separators or dots, in order, with ASCII letters made small (Windows reads a
/// drive letter either way).
pub open spec fn significant(text: Seq<char>) -> Seq<char>
    decreases text.len(),
{
    if text.len() == 0 {
        Seq::empty()
    } else if is_separator_or_dot(text.last()) {
        significant(text.drop_last())
    } else {
        significant(text.drop_last()).push(ascii_lower(text.last()))
    }
}

/// The characters of a path text apart from `/` and dots, in order, with ASCII
/// letters made small: what Unix path syntax, whose only separator is `/`, keeps
/// of a path's components (case is ignored, which only weakens what is claimed).
pub open spec fn unix_key(text: Seq<char>) -> Seq<char>
    decreases text.len(),
{
    if text.len() == 0 {
        Seq::empty()
    } else if text.last() == '/' || text.last() == '.' {
        unix_key(text.drop_last())
    } else {
        unix_key(text.drop_last()).push(ascii_lower(text.last()))
    }
}

/// The text holds neither `/` nor `\`, so on no platform does it have a root.
pub open spec fn has_no_separator(text: Seq<char>) -> bool {
    forall|i: int| 0 <= i < text.len() ==> #[trigger] text[i] != '/' && text[i] != '\\'
}

/// `c` is an ASCII letter, as a Windows drive letter is.
pub open spec fn is_ascii_letter(c: char) -> bool {
    ('A' <= c <= 'Z') || ('a' <= c <= 'z')
}

/// The text has a root on Windows: it begins with a separator (a root, or a
/// prefix such as `\\server\share` that always has one), or it is a drive
/// prefix such as `C:` followed by a separator.
pub open spec fn windows_rooted(text: Seq<char>) -> bool {
    ||| text.len() > 0 && (text[0] == '/' || text[0] == '\\')
    ||| text.len() >= 3 && is_ascii_letter(text[0]) && text[1] == ':' && (text[2] == '/'
        || text[2] == '\\')
}

/// What holds of two path texts that compare equal as paths, on every platform:
/// both or neither are empty; they have the same characters once separators and
/// dots are left out and ASCII case is ignored; and either they have the same
/// characters apart from `/` and dots (as on Unix, where `\` is an ordinary
/// character), or they do not differ in having a root on Windows (where a text
/// without separators has none).
pub open spec fn may_equal_paths(a: Seq<char>, b: Seq<char>) -> bool {
    &&& (a.len() == 0 <==> b.len() == 0)
    &&& significant(a) == significant(b)
    &&& (unix_key(a) == unix_key(b) || (!(has_no_separator(a) && windows_rooted(b)) && !(
    windows_rooted(a) && has_no_separator(b))))
}

/// Whether `a` and `b`, taken as paths, are equal: calls
/// `<std::path::Path as PartialEq>::eq` on `Path::new(a)` and `Path::new(b)`.
///
/// Paths compare component by component; components are the texts between
/// separators (`/` on Unix; `/` and `\` on Windows, after an optional prefix
/// such as `C:` whose drive letter is read in either case), with repeated
/// separators, a trailing separator and non-leading `.` components dropped, and
/// no other normalization; equal components give equal roots. So equal texts
/// are equal paths, and equal paths meet `may_equal_paths` on every platform.
/// Which other different spellings name the same path depends on the
/// platform's path syntax and is not stated.
#[verifier::external_body]
fn path_eq(a: &str, b: &str) -> (r: bool)
    ensures
        a@ == b@ ==> r,
        r ==> may_equal_paths(a@, b@),
{
    std::path::Path::new(a) == std::path::Path::new(b)
}

/// A mount point that some platform may read as the system root, that is, one
/// that may equal `/` or `C:\` as a path.
pub open spec fn may_be_root(mount_point: Seq<char>) -> bool {
    may_equal_paths(mount_point, "/"@) || may_equal_paths(mount_point, "C:\\"@)
}

/// What the two root spellings are made of.
proof fn lemma_root_spellings()
    ensures
        "/"@ == seq!['/'],
        "C:\\"@ == seq!['C', ':', '\\'],
        significant("/"@) == Seq::<char>::empty(),
        significant("C:\\"@) == seq!['c', ':'],
        unix_key("/"@) == Seq::<char>::empty(),
        unix_key("C:\\"@) == seq!['c', ':', '\\'],
        windows_rooted("/"@),
        windows_rooted("C:\\"@),
{
    reveal_strlit("/");
    reveal_strlit("C:\\");
    assert("/"@ =~= seq!['/']);
    assert("C:\\"@ =~= seq!['C', ':', '\\']);
    assert(seq!['/'].drop_last() =~= Seq::<char>::empty());
    assert(seq!['C', ':', '\\'].drop_last() =~= seq!['C', ':']);
    assert(seq!['C', ':'].drop_last() =~= seq!['C']);
    assert(seq!['C'].drop_last() =~= Seq::<char>::empty());
    assert(ascii_lower('C') == 'c');
    reveal_with_fuel(significant, 4);
    reveal_with_fuel(unix_key, 4);
    assert(significant(seq!['C']) =~= seq!['c']);
    assert(significant(seq!['C', ':']) =~= seq!['c', ':']);
    assert(unix_key(seq!['C']) =~= seq!['c']);
    assert(unix_key(seq!['C', ':']) =~= seq!['c', ':']);
    assert(unix_key(seq!['C', ':', '\\']) =~= seq!['c', ':', '\\']);
}

/// Every character of a text is a separator or a dot, or its small form is one
/// of the text's significant characters.
pub proof fn lemma_significant_covers(text: Seq<char>)
    ensures
        forall|i: int|
            0 <= i < text.len() && !is_separator_or_dot(#[trigger] text[i]) ==> significant(
                text,
            ).contains(ascii_lower(text[i])),
    decreases text.len(),
{
    if text.len() > 0 {
        let init = text.drop_last();
        lemma_significant_covers(init);
        assert forall|i: int|
            0 <= i < text.len() && !is_separator_or_dot(#[trigger] text[i]) implies significant(
                text,
            ).contains(ascii_lower(text[i])) by {
            if i < text.len() - 1 {
                assert(init[i] == text[i]);
                let k = choose|k: int|
                    0 <= k < significant(init).len() && significant(init)[k] == ascii_lower(
                        init[i],
                    );
                assert(significant(text)[k] == ascii_lower(text[i]));
            } else {
                assert(significant(text).last() == ascii_lower(text[i]));
            }
        }
    }
}

/// A mount point that may be the system root is not empty and is made only of
/// `/`, `\`, `.`, `:`, `C` and `c`.
pub proof fn lemma_root_characters(mount_point: Seq<char>)
    requires
        may_be_root(mount_point),
    ensures
        mount_point.len() > 0,
        forall|i: int|
            0 <= i < mount_point.len() ==> {
                let c = #[trigger] mount_point[i];
                c == '/' || c == '\\' || c == '.' || c == ':' || c == 'C' || c == 'c'
            },
{
    lemma_root_spellings();
    lemma_significant_covers(mount_point);
    assert forall|i: int| 0 <= i < mount_point.len() implies {
        let c = #[trigger] mount_point[i];
        c == '/' || c == '\\' || c == '.' || c == ':' || c == 'C' || c == 'c'
    } by {
        let c = mount_point[i];
        if !is_separator_or_dot(c) {
            let sig = significant(mount_point);
            assert(sig.contains(ascii_lower(c)));
            let k = choose|k: int| 0 <= k < sig.len() && sig[k] == ascii_lower(c);
            if 'A' <= c <= 'Z' {
                assert((c as u32) + 32 <= 0xD7FF);
                assert((((c as u32) + 32) as char) as u32 == (c as u32) + 32);
            }
        }
    }
}

/// A bare drive letter with a colon, `C:`, is not the system root on any
/// platform: it names no root, and on Unix it is the name `C:`.
pub proof fn lemma_bare_drive_is_not_root()
    ensures
        !may_be_root("C:"@),
{
    lemma_root_spellings();
    reveal_strlit("C:");
    let t = "C:"@;
    assert(t =~= seq!['C', ':']);
    assert(seq!['C', ':'].drop_last() =~= seq!['C']);
    assert(seq!['C'].drop_last() =~= Seq::<char>::empty());
    assert(ascii_lower('C') == 'c');
    reveal_with_fuel(significant, 3);
    reveal_with_fuel(unix_key, 3);
    assert(significant(seq!['C']) =~= seq!['c']);
    assert(significant(t) =~= seq!['c', ':']);
    assert(unix_key(seq!['C']) =~= seq!['c']);
    assert(unix_key(t) =~= seq!['c', ':']);
    assert(has_no_separator(t));
    assert(significant(t) != significant("/"@));
    assert(unix_key(t) != unix_key("C:\\"@));
}

/// Whether a disk is mounted at the system root: its mount point equals `/` or
/// `C:\` as paths.
pub fn is_system_root(mount_point: &str) -> (r: bool)
    ensures
        mount_point@ == "/"@ || mount_point@ == "C:\\"@ ==> r,
        r ==> may_be_root(mount_point@),
{
    path_eq(mount_point, "/") || path_eq(mount_point, "C:\\")
}

/// The (total, available) space of the disk a snapshot reports, where `roots[i]`
/// says whether `disks[i]` is mounted at the system root.
pub fn choose_disk(roots: &Vec<bool>, disks: &Vec<DiskSample>) -> (r: (u64, u64))
    requires
        roots.len() == disks.len(),
    ensures
        is_reported_space(roots@, disks@, r),
{
    let n = disks.len();
    let mut i: usize = 0;
    while i < n
        invariant
            n == disks.len(),
            roots.len() == n,
            0 <= i <= n,
            forall|k: int| 0 <= k < i ==> !roots[k],
        decreases n - i,
    {
        if roots[i] {
            let r = (disks[i].total_space, disks[i].available_space);
            assert(roots@[i as int]);
            return r;
        }
        i = i + 1;
    }
    assert(!exists|i: int| 0 <= i < disks.len() && #[trigger] roots@[i]);
    if n == 0 {
        return (0, 0);
    }
    let mut best: usize = 0;
    let mut j: usize = 1;
    while j < n
        invariant
            n == disks.len(),
            1 <= j <= n,
            0 <= best < j,
            forall|k: int| 0 <= k < j ==> #[trigger] disks[k].total_space <= disks[best as int].total_space,
            forall|k: int| best < k < j ==> #[trigger] disks[k].total_space < disks[best as int].total_space,
        decreases n - j,
    {
        if disks[j].total_space >= disks[best].total_space {
            best = j;
        }
        j = j + 1;
    }
    let r = (disks[best].total_space, disks[best].available_space);
    assert(r == space_of(disks@[best as int]));
    r
}

/// The (total, available) space of the disk a snapshot reports: the first disk
/// mounted at the system root, else the largest one (the last of equally large
/// ones), else none. Mount points spelled exactly `/` or `C:\` count as the root;
/// only mount points that may be the root on some platform do.
pub fn primary_disk_space(disks: &Vec<DiskSample>) -> (r: (u64, u64))
    ensures
        exists|roots: Seq<bool>|
            {
                &&& roots.len() == disks.len()
                &&& forall|i: int|
                    0 <= i < disks.len() && (disks[i].mount_point@ == "/"@
                        || disks[i].mount_point@ == "C:\\"@) ==> #[trigger] roots[i]
                &&& forall|i: int|
                    0 <= i < disks.len() && #[trigger] roots[i] ==> may_be_root(
                        disks[i].mount_point@,
                    )
                &&& is_reported_space(roots, disks@, r)
            },
{
    let mut roots: Vec<bool> = Vec::new();
    let n = disks.len();
    for i in 0..n
        invariant
            n == disks.len(),
            roots.len() == i,
            forall|k: int|
                0 <= k < i && (disks[k].mount_point@ == "/"@ || disks[k].mount_point@
                    == "C:\\"@) ==> #[trigger] roots@[k],
            forall|k: int| 0 <= k < i && #[trigger] roots@[k] ==> may_be_root(disks[k].mount_point@),
    {
        let root = is_system_root(disks[i].mount_point.as_str());
        roots.push(root);
    }
    choose_disk(&roots, disks)
}

/// Index of the process using the most memory (the last of equally large ones),
/// or `None` when there is no process.
pub fn top_by_memory(memory: &Vec<u64>) -> (r: Option<usize>)
    ensures
        r is None <==> memory.len() == 0,
        r matches Some(i) ==> {
            &&& i < memory.len()
            &&& forall|k: int| 0 <= k < memory.len() ==> #[trigger] memory[k] <= memory[i as int]
            &&& forall|k: int| i < k < memory.len() ==> #[trigger] memory[k] < memory[i as int]
        },
{
    let n = memory.len();
    if n == 0 {
        return None;
    }
    let mut best: usize = 0;
    let mut j: usize = 1;
    while j < n
        invariant
            n == memory.len(),
            1 <= j <= n,
            0 <= best < j,
            forall|k: int| 0 <= k < j ==> #[trigger] memory[k] <= memory[best as int],
            forall|k: int| best < k < j ==> #[trigger] memory[k] < memory[best as int],
        decreases n - j,
    {
        if memory[j] >= memory[best] {
            best = j;
        }
        j = j + 1;
    }
    Some(best)
}

/// `name` is made of ASCII digits only (an empty name counts), as the entries of
/// `/proc` that stand for processes are.
pub open spec fn is_pid_name_spec(name: Seq<char>) -> bool {
    forall|i: int| 0 <= i < name.len() ==> '0' <= #[trigger] name[i] <= '9'
}

/// A process entry's name is made of the ten ASCII digits only: every character
/// is one of `0123456789`, and any such text (the empty one too) counts.
pub proof fn lemma_pid_names_are_digit_strings(name: Seq<char>)
    ensures
        is_pid_name_spec(name) <==> forall|i: int|
            0 <= i < name.len() ==> "0123456789"@.contains(#[trigger] name[i]),
{
    reveal_strlit("0123456789");
    let digits = "0123456789"@;
    assert(digits =~= seq!['0', '1', '2', '3', '4', '5', '6', '7', '8', '9']);
    assert forall|c: char| digits.contains(c) <==> ('0' <= c <= '9') by {
        if '0' <= c <= '9' {
            let k = (c as u32 - '0' as u32) as int;
            assert(digits[k] == c);
        }
    }
}

/// Whether `name` is made of ASCII digits only.
pub fn is_pid_name(name: &str) -> (r: bool)
    ensures
        r == is_pid_name_spec(name@),
{
    let mut all_digits = true;
    for c in it: name.chars()
        invariant
            it.seq() == name@,
            all_digits == (forall|k: int| 0 <= k < it.index() ==> '0' <= #[trigger] name@[k] <= '9'),
    {
        if !('0' <= c && c <= '9') {
            all_digits = false;
        }
    }
    all_digits
}

/// How many of `names` are present and made of ASCII digits only.
pub open spec fn pid_count(names: Seq<Option<String>>) -> nat
    decreases names.len(),
{
    if names.len() == 0 {
        0
    } else {
        pid_count(names.drop_last()) + match names.last() {
            Some(name) => if is_pid_name_spec(name@) {
                1nat
            } else {
                0nat
            },
            None => 0nat,
        }
    }
}

/// Counts the directory entries that stand for processes: those whose name could
/// be read as text and is made of ASCII digits only.
pub fn count_pid_entries(names: &Vec<Option<String>>) -> (n: usize)
    ensures
        n == pid_count(names@),
{
    let mut count: usize = 0;
    let len = names.len();
    for i in 0..len
        invariant
            len == names.len(),
            count == pid_count(names@.take(i as int)),
            count <= i,
    {
        proof {
            assert(names@.take(i + 1).drop_last() =~= names@.take(i as int));
        }
        match &names[i] {
            Some(name) => {
                if is_pid_name(name.as_str()) {
                    count = count + 1;
                }
            },
            None => {},
        }
    }
    proof {
        assert(names@.take(len as int) =~= names@);
    }
    count
}

/// How many `\n` characters `text` holds.
pub open spec fn newline_count(text: Seq<char>) -> nat
    decreases text.len(),
{
    if text.len() == 0 {
        0
    } else {
        newline_count(text.drop_last()) + if text.last() == '\n' {
            1nat
        } else {
            0nat
        }
    }
}

/// A text holds no more line feeds than characters.
proof fn lemma_newline_count_bound(text: Seq<char>)
    ensures
        newline_count(text) <= text.len(),
    decreases text.len(),
{
    if text.len() > 0 {
        lemma_newline_count_bound(text.drop_last());
    }
}

/// How many lines `str::lines` yields for `text`: one per line feed, plus one for
/// a last line that does not end in a line feed.
pub open spec fn line_count(text: Seq<char>) -> nat {
    if text.len() == 0 || text.last() == '\n' {
        newline_count(text)
    } else {
        newline_count(text) + 1
    }
}

/// The number of lines in `text`, as `text.lines().count()` gives it.
pub fn count_lines(text: &str) -> (n: usize)
    ensures
        n == line_count(text@),
{
    let len = text.unicode_len();
    let mut newlines: usize = 0;
    let mut last: Option<char> = None;
    for c in it: text.chars()
        invariant
            it.seq() == text@,
            len == text@.len(),
            newlines == newline_count(text@.take(it.index() as int)),
            newlines <= it.index(),
            last == (if it.index() == 0 {
                None
            } else {
                Some(text@[it.index() - 1])
            }),
    {
        proof {
            let k = it.index() as int;
            assert(text@.take(k + 1).drop_last() =~= text@.take(k));
        }
        if c == '\n' {
            newlines = newlines + 1;
        }
        last = Some(c);
    }
    proof {
        assert(text@.take(len as int) =~= text@);
        if len > 0 {
            lemma_newline_count_bound(text@.drop_last());
        }
    }
    match last {
        Some(c) => if c == '\n' {
            newlines
        } else {
            newlines + 1
        },
        None => newlines,
    }
}

} // verus!
