//! Names of files, as the system writes them.

use vstd::prelude::*;

verus! {

/// Either slash parts the components of a path.
pub open spec fn separator(c: char) -> bool {
    c == '/' || c == '\\'
}

fn is_separator(c: char) -> (r: bool)
    ensures
        r == separator(c),
{
    c == '/' || c == '\\'
}

/// What parts the components of a path: either slash, but only the backslash in
/// a path that is to be taken literally.
pub open spec fn parts(c: char, literal: bool) -> bool {
    c == '\\' || (c == '/' && !literal)
}

fn does_part(c: char, literal: bool) -> (r: bool)
    ensures
        r == parts(c, literal),
{
    c == '\\' || (c == '/' && !literal)
}

/// Where the component that starts at `from` ends.
pub open spec fn component_end(s: Seq<char>, from: int, literal: bool) -> int
    decreases s.len() - from,
{
    if from >= s.len() {
        s.len() as int
    } else if parts(s[from], literal) {
        from
    } else {
        component_end(s, from + 1, literal)
    }
}

/// A drive's letter and a colon stand at `at`.
pub open spec fn drive_at(s: Seq<char>, at: int) -> bool {
    at + 2 <= s.len() && s[at + 1] == ':' && ('a' <= s[at] <= 'z' || 'A' <= s[at] <= 'Z')
}

/// The path is to be taken literally: it starts with `\\?\`, in backslashes.
pub open spec fn is_literal(s: Seq<char>) -> bool {
    s.len() >= 4 && s[0] == '\\' && s[1] == '\\' && s[2] == '?' && s[3] == '\\'
}

/// The path goes on from its fifth character with `UNC` and a separator.
pub open spec fn names_share(s: Seq<char>) -> bool {
    s.len() >= 8 && s[4] == 'U' && s[5] == 'N' && s[6] == 'C' && separator(s[7])
}

/// Length of what says where a path starts. In a path that is taken literally
/// that is the machine and the share behind `UNC`, a drive, or else whatever
/// component comes first. In another it is a device behind `\\.\`, the machine
/// and the share behind two separators where neither is empty, or a drive.
pub open spec fn root_len(s: Seq<char>) -> int {
    if is_literal(s) {
        if names_share(s) {
            let machine = component_end(s, 8, true);
            let share = component_end(s, machine + 1, true);
            if share > machine + 1 {
                share
            } else {
                machine
            }
        } else if drive_at(s, 4) && (s.len() == 6 || separator(s[6])) {
            6
        } else {
            component_end(s, 4, true)
        }
    } else if s.len() >= 2 && separator(s[0]) && separator(s[1]) {
        if s.len() >= 4 && s[2] == '.' && separator(s[3]) {
            component_end(s, 4, false)
        } else {
            let machine = component_end(s, 2, false);
            let share = component_end(s, machine + 1, false);
            if machine > 2 && share > machine + 1 {
                share
            } else {
                0
            }
        }
    } else if drive_at(s, 0) {
        2
    } else {
        0
    }
}

/// Where the components behind the root start: a separator right behind what
/// says where the path starts stands for the root itself.
pub open spec fn body_start(s: Seq<char>) -> int {
    let root = root_len(s);
    if root < s.len() && separator(s[root]) {
        root + 1
    } else {
        root
    }
}

/// The path ends in a component that is a single dot: the place itself.
pub open spec fn ends_in_dot(s: Seq<char>) -> bool {
    s.len() > 0 && s.last() == '.' && (s.len() == 1 || separator(s[s.len() - 2]))
}

/// The path without separators at its end, and unless it is to be taken
/// literally, without single dots there.
pub open spec fn without_tail(s: Seq<char>, literal: bool) -> Seq<char>
    decreases s.len(),
{
    if s.len() > 0 && (parts(s.last(), literal) || (!literal && ends_in_dot(s))) {
        without_tail(s.drop_last(), literal)
    } else {
        s
    }
}

/// What follows the last separator.
pub open spec fn last_component(s: Seq<char>, literal: bool) -> Seq<char>
    decreases s.len(),
{
    if s.len() == 0 || parts(s.last(), literal) {
        seq![]
    } else {
        last_component(s.drop_last(), literal).push(s.last())
    }
}

/// The last component of a path behind its root; empty where there is none.
pub open spec fn file_name(path: Seq<char>) -> Seq<char> {
    let literal = is_literal(path);
    let body = path.subrange(body_start(path), path.len() as int);
    last_component(without_tail(body, literal), literal)
}

/// What follows the last dot; nothing where there is no dot.
pub open spec fn behind_last_dot(s: Seq<char>) -> Option<Seq<char>>
    decreases s.len(),
{
    if s.len() == 0 {
        None
    } else if s.last() == '.' {
        Some(Seq::<char>::empty())
    } else {
        match behind_last_dot(s.drop_last()) {
            Some(e) => Some(e.push(s.last())),
            None => None,
        }
    }
}

/// The extension of a file's name: what follows its last dot. A dot that the
/// name starts with does not count, and neither the place itself nor the way up
/// has an extension.
pub open spec fn extension_of_name(name: Seq<char>) -> Option<Seq<char>> {
    if name =~= seq!['.', '.'] || name.len() == 0 {
        None
    } else {
        behind_last_dot(name.subrange(1, name.len() as int))
    }
}

/// The extension of a path.
pub open spec fn extension(path: Seq<char>) -> Option<Seq<char>> {
    extension_of_name(file_name(path))
}

fn find_component_end(path: &Vec<char>, from: usize, literal: bool) -> (r: usize)
    requires
        from <= path.len(),
    ensures
        from <= r <= path.len(),
        r == component_end(path@, from as int, literal),
{
    let mut i: usize = from;
    while i < path.len() && !does_part(path[i], literal)
        invariant
            from <= i <= path.len(),
            component_end(path@, i as int, literal) == component_end(path@, from as int, literal),
        decreases path.len() - i,
    {
        i = i + 1;
    }
    i
}

/// Where the share ends whose name stands one separator behind `machine`;
/// nothing where it is empty.
fn find_share_end(path: &Vec<char>, machine: usize, literal: bool) -> (r: Option<usize>)
    requires
        machine <= path.len(),
    ensures
        match r {
            Some(share) => share <= path.len() && share == component_end(
                path@,
                machine + 1,
                literal,
            ) && share > machine + 1,
            None => component_end(path@, machine + 1, literal) <= machine + 1,
        },
{
    if machine == path.len() {
        return None;
    }
    let share: usize = find_component_end(path, machine + 1, literal);
    if share > machine + 1 {
        Some(share)
    } else {
        None
    }
}

fn is_drive(path: &Vec<char>, at: usize) -> (r: bool)
    requires
        at <= path.len(),
    ensures
        r == drive_at(path@, at as int),
{
    if path.len() - at < 2 {
        return false;
    }
    let c = path[at];
    path[at + 1] == ':' && ((c >= 'a' && c <= 'z') || (c >= 'A' && c <= 'Z'))
}

fn taken_literally(path: &Vec<char>) -> (r: bool)
    ensures
        r == is_literal(path@),
{
    path.len() >= 4 && path[0] == '\\' && path[1] == '\\' && path[2] == '?' && path[3] == '\\'
}

fn root_end(path: &Vec<char>) -> (r: usize)
    ensures
        r <= path.len(),
        r == root_len(path@),
{
    if taken_literally(path) {
        if path.len() >= 8 && path[4] == 'U' && path[5] == 'N' && path[6] == 'C' && is_separator(
            path[7],
        ) {
            let machine: usize = find_component_end(path, 8, true);
            return match find_share_end(path, machine, true) {
                Some(share) => share,
                None => machine,
            };
        }
        if is_drive(path, 4) && (path.len() == 6 || is_separator(path[6])) {
            return 6;
        }
        return find_component_end(path, 4, true);
    }
    if path.len() >= 2 && is_separator(path[0]) && is_separator(path[1]) {
        if path.len() >= 4 && path[2] == '.' && is_separator(path[3]) {
            return find_component_end(path, 4, false);
        }
        let machine: usize = find_component_end(path, 2, false);
        return match find_share_end(path, machine, false) {
            Some(share) => if machine > 2 {
                share
            } else {
                0
            },
            None => 0,
        };
    }
    if is_drive(path, 0) {
        2
    } else {
        0
    }
}

fn find_body_start(path: &Vec<char>) -> (r: usize)
    ensures
        r <= path.len(),
        r == body_start(path@),
{
    let root: usize = root_end(path);
    if root < path.len() && is_separator(path[root]) {
        root + 1
    } else {
        root
    }
}

fn tail_start(path: &Vec<char>, start: usize, literal: bool) -> (r: usize)
    requires
        start <= path.len(),
    ensures
        start <= r <= path.len(),
        path@.subrange(start as int, r as int) == without_tail(
            path@.subrange(start as int, path@.len() as int),
            literal,
        ),
{
    let mut end: usize = path.len();
    while end > start && (does_part(path[end - 1], literal) || (!literal && path[end - 1] == '.' && (
    end - 1 == start || is_separator(path[end - 2]))))
        invariant
            start <= end <= path.len(),
            without_tail(path@.subrange(start as int, end as int), literal) == without_tail(
                path@.subrange(start as int, path@.len() as int),
                literal,
            ),
        decreases end,
    {
        let ghost part = path@.subrange(start as int, end as int);
        assert(part.drop_last() =~= path@.subrange(start as int, end - 1));
        end = end - 1;
    }
    end
}

proof fn last_component_is_suffix(s: Seq<char>, from: int, literal: bool)
    requires
        0 <= from <= s.len(),
        from > 0 ==> parts(s[from - 1], literal),
        forall|i: int| from <= i < s.len() ==> !parts(#[trigger] s[i], literal),
    ensures
        last_component(s, literal) == s.subrange(from, s.len() as int),
    decreases s.len(),
{
    if s.len() == from {
        assert(s.subrange(from, s.len() as int) =~= Seq::<char>::empty());
    } else {
        let head = s.drop_last();
        assert(forall|i: int| from <= i < head.len() ==> head[i] == s[i]);
        assert(!parts(s[s.len() - 1], literal));
        last_component_is_suffix(head, from, literal);
        assert(s.subrange(from, s.len() as int) =~= head.subrange(from, head.len() as int).push(
            s.last(),
        ));
    }
}

proof fn behind_last_dot_is_suffix(s: Seq<char>, dot: int)
    requires
        -1 <= dot < s.len(),
        dot >= 0 ==> s[dot] == '.',
        forall|i: int| dot < i < s.len() ==> #[trigger] s[i] != '.',
    ensures
        behind_last_dot(s) == (if dot < 0 {
            None::<Seq<char>>
        } else {
            Some(s.subrange(dot + 1, s.len() as int))
        }),
    decreases s.len(),
{
    if s.len() == 0 {
    } else if dot == s.len() - 1 {
        assert(s.subrange(dot + 1, s.len() as int) =~= Seq::<char>::empty());
    } else {
        let head = s.drop_last();
        assert(s[s.len() - 1] != '.');
        assert(forall|i: int| dot < i < head.len() ==> head[i] == s[i]);
        behind_last_dot_is_suffix(head, dot);
        if dot >= 0 {
            assert(s.subrange(dot + 1, s.len() as int) =~= head.subrange(
                dot + 1,
                head.len() as int,
            ).push(s.last()));
        }
    }
}

/// The extension of a path, as characters.
pub fn path_extension(path: &Vec<char>) -> (r: Option<Vec<char>>)
    ensures
        match r {
            Some(e) => extension(path@) == Some(e@),
            None => extension(path@) is None,
        },
{
    let literal = taken_literally(path);
    let start: usize = find_body_start(path);
    let end: usize = tail_start(path, start, literal);
    let ghost whole = path@.subrange(start as int, end as int);
    let mut from: usize = end;
    while from > start && !does_part(path[from - 1], literal)
        invariant
            start <= from <= end <= path.len(),
            forall|i: int| from <= i < end ==> !parts(#[trigger] path@[i], literal),
        decreases from,
    {
        from = from - 1;
    }
    let ghost name = path@.subrange(from as int, end as int);
    proof {
        assert(forall|i: int| 0 <= i < whole.len() ==> whole[i] == path@[start + i]);
        last_component_is_suffix(whole, from - start, literal);
        assert(whole.subrange(from - start, whole.len() as int) =~= name);
    }
    if from == end {
        return None;
    }
    if end - from == 2 && path[from] == '.' && path[from + 1] == '.' {
        assert(name =~= seq!['.', '.']);
        return None;
    }
    proof {
        if name =~= seq!['.', '.'] {
            assert(name[0] == '.' && name[1] == '.');
        }
    }
    let ghost rest = name.subrange(1, name.len() as int);
    let mut dot: usize = end;
    while dot > from + 1 && path[dot - 1] != '.'
        invariant
            from + 1 <= dot <= end <= path.len(),
            forall|i: int| dot <= i < end ==> #[trigger] path@[i] != '.',
        decreases dot,
    {
        dot = dot - 1;
    }
    proof {
        assert(forall|i: int| 0 <= i < rest.len() ==> rest[i] == path@[from + 1 + i]);
        behind_last_dot_is_suffix(rest, dot - from - 2);
    }
    if dot == from + 1 {
        return None;
    }
    let mut out: Vec<char> = Vec::new();
    let mut i: usize = dot;
    while i < end
        invariant
            dot <= i <= end <= path.len(),
            out@ =~= path@.subrange(dot as int, i as int),
        decreases end - i,
    {
        out.push(path[i]);
        i = i + 1;
    }
    assert(out@ =~= rest.subrange(dot - from - 1, rest.len() as int));
    Some(out)
}

/// No slash and no backslash stands in a text.
pub open spec fn without_slashes(s: Seq<char>) -> bool {
    forall|i: int| 0 <= i < s.len() ==> (#[trigger] s[i]) != '/' && s[i] != '\\'
}

proof fn name_behind_slash(before: Seq<char>, slash: char, name: Seq<char>)
    requires
        slash == '/' || slash == '\\',
        without_slashes(name),
        name.len() > 0,
        !(name.len() == 1 && name[0] == '.'),
        !(before.len() >= 2 && (before[0] == '/' || before[0] == '\\') && (before[1] == '/'
            || before[1] == '\\')),
        !(before.len() == 1 && (before[0] == '/' || before[0] == '\\')),
    ensures
        file_name(before.push(slash) + name) == name,
{
    let path = before.push(slash) + name;
    let n = before.len() as int;
    assert(path[n] == slash);
    assert(forall|i: int| 0 <= i < n ==> path[i] == before[i]);
    assert(forall|i: int| 0 <= i < name.len() ==> path[n + 1 + i] == name[i]);
    assert(!(separator(path[0]) && separator(path[1])));
    assert(!is_literal(path));
    let start = body_start(path);
    assert(start <= n + 1);
    let body = path.subrange(start, path.len() as int);
    assert(forall|i: int| 0 <= i < body.len() ==> body[i] == path[start + i]);
    let last = body.len() - 1;
    assert(body.last() == name[name.len() - 1]);
    assert(!parts(body.last(), false));
    if ends_in_dot(body) {
        if name.len() > 1 {
            assert(body[body.len() - 2] == name[name.len() - 2]);
        }
    }
    assert(without_tail(body, false) == body);
    let from = n + 1 - start;
    assert(from > 0 ==> body[from - 1] == slash);
    assert forall|i: int| from <= i < body.len() implies !parts(#[trigger] body[i], false) by {
        assert(body[i] == name[i - from]);
    }
    last_component_is_suffix(body, from, false);
    assert(body.subrange(from, body.len() as int) =~= name);
}

/// A file in a folder has the extension that its name has: what is behind the
/// last dot of the name, whatever the folder's own name and whichever slash stands
/// before it. Paths that start with two slashes are left out: there the first names
/// are no folders.
pub proof fn file_in_a_folder_has_its_extension(
    before: Seq<char>,
    slash: char,
    stem: Seq<char>,
    ending: Seq<char>,
)
    requires
        slash == '/' || slash == '\\',
        without_slashes(stem),
        without_slashes(ending),
        stem.len() > 0,
        forall|i: int| 0 <= i < ending.len() ==> (#[trigger] ending[i]) != '.',
        ending.len() > 0,
        !(before.len() >= 2 && (before[0] == '/' || before[0] == '\\') && (before[1] == '/'
            || before[1] == '\\')),
        !(before.len() == 1 && (before[0] == '/' || before[0] == '\\')),
    ensures
        extension(before.push(slash) + (stem.push('.') + ending)) == Some(ending),
{
    let name = stem.push('.') + ending;
    assert forall|i: int| 0 <= i < name.len() implies (#[trigger] name[i]) != '/' && name[i]
        != '\\' by {
        if i < stem.len() {
            assert(name[i] == stem[i]);
        } else if i > stem.len() {
            assert(name[i] == ending[i - stem.len() - 1]);
        }
    }
    name_behind_slash(before, slash, name);
    let rest = name.subrange(1, name.len() as int);
    assert(name.last() == ending.last());
    assert(name[name.len() - 1] == ending[ending.len() - 1]);
    assert(ending[ending.len() - 1] != '.');
    if name =~= seq!['.', '.'] {
        assert(name[1] == '.');
    }
    let dot = stem.len() - 1;
    assert(rest[dot] == '.');
    assert forall|i: int| dot < i < rest.len() implies #[trigger] rest[i] != '.' by {
        assert(rest[i] == ending[i - dot - 1]);
    }
    behind_last_dot_is_suffix(rest, dot);
    assert(rest.subrange(dot + 1, rest.len() as int) =~= ending);
}

/// A file in a folder whose name has no dot behind its first character has no
/// extension, a name that starts with its only dot included.
pub proof fn name_without_inner_dot_has_no_extension(
    before: Seq<char>,
    slash: char,
    name: Seq<char>,
)
    requires
        slash == '/' || slash == '\\',
        without_slashes(name),
        name.len() > 1,
        forall|i: int| 1 <= i < name.len() ==> (#[trigger] name[i]) != '.',
        !(before.len() >= 2 && (before[0] == '/' || before[0] == '\\') && (before[1] == '/'
            || before[1] == '\\')),
        !(before.len() == 1 && (before[0] == '/' || before[0] == '\\')),
    ensures
        extension(before.push(slash) + name) is None,
{
    name_behind_slash(before, slash, name);
    let rest = name.subrange(1, name.len() as int);
    assert forall|i: int| -1 < i < rest.len() implies #[trigger] rest[i] != '.' by {
        assert(rest[i] == name[i + 1]);
    }
    behind_last_dot_is_suffix(rest, -1);
}

proof fn component_ends_at(s: Seq<char>, from: int, end: int, literal: bool)
    requires
        0 <= from <= end <= s.len(),
        forall|i: int| from <= i < end ==> !parts(#[trigger] s[i], literal),
        end < s.len() ==> parts(s[end], literal),
    ensures
        component_end(s, from, literal) == end,
    decreases end - from,
{
    if from < end {
        assert(!parts(s[from], literal));
        component_ends_at(s, from + 1, end, literal);
    }
}

/// Behind two slashes the machine and the share say where the path starts, and
/// neither is a file: with nothing behind them there is no extension.
pub proof fn share_is_no_file(first: char, second: char, machine: Seq<char>, slash: char, share: Seq<char>)
    requires
        first == '/' || first == '\\',
        second == '/' || second == '\\',
        slash == '/' || slash == '\\',
        without_slashes(machine),
        without_slashes(share),
        machine.len() > 0,
        share.len() > 0,
        machine[0] != '?' && machine[0] != '.',
    ensures
        extension(seq![first, second] + machine.push(slash) + share) is None,
{
    let path = seq![first, second] + machine.push(slash) + share;
    let m = machine.len() as int;
    assert(forall|i: int| 0 <= i < m ==> path[2 + i] == machine[i]);
    assert(path[2 + m] == slash);
    assert(forall|i: int| 0 <= i < share.len() ==> path[3 + m + i] == share[i]);
    assert(path[2] == machine[0]);
    assert forall|i: int| 2 <= i < 2 + m implies !parts(#[trigger] path[i], false) by {
        assert(path[i] == machine[i - 2]);
    }
    component_ends_at(path, 2, 2 + m, false);
    assert forall|i: int| 3 + m <= i < path.len() implies !parts(#[trigger] path[i], false) by {
        assert(path[i] == share[i - 3 - m]);
    }
    component_ends_at(path, 3 + m, path.len() as int, false);
    assert(root_len(path) == path.len());
    let body = path.subrange(body_start(path), path.len() as int);
    assert(body =~= Seq::<char>::empty());
    assert(without_tail(body, false) == body);
}

/// What stands behind the root is the name, where nothing parts it.
proof fn name_behind_root(path: Seq<char>, start: int, name: Seq<char>)
    requires
        0 <= start,
        body_start(path) == start,
        start + name.len() == path.len(),
        path.subrange(start, path.len() as int) == name,
        name.len() > 0,
        forall|i: int| 0 <= i < name.len() ==> !parts(#[trigger] name[i], is_literal(path)),
        is_literal(path) || !(name.len() == 1 && name[0] == '.'),
    ensures
        file_name(path) == name,
{
    let literal = is_literal(path);
    assert(!parts(name[name.len() - 1], literal));
    if !literal && name.len() > 1 {
        assert(!parts(name[name.len() - 2], literal));
    }
    assert(without_tail(name, literal) == name);
    last_component_is_suffix(name, 0, literal);
    assert(name.subrange(0, name.len() as int) =~= name);
}

/// Behind a drive's letter and a colon the name begins at once.
pub proof fn drive_is_no_part_of_the_name(letter: char, name: Seq<char>)
    requires
        65 <= letter as int <= 90 || 97 <= letter as int <= 122,
        without_slashes(name),
        name.len() > 0,
        !(name.len() == 1 && name[0] == '.'),
    ensures
        file_name(seq![letter, ':'] + name) == name,
{
    let path = seq![letter, ':'] + name;
    assert(path[0] == letter && path[1] == ':');
    assert(path[2] == name[0]);
    assert(!is_literal(path));
    assert(drive_at(path, 0));
    assert(path.subrange(2, path.len() as int) =~= name);
    name_behind_root(path, 2, name);
}

/// In a path that is taken literally only the backslash parts the components: a
/// slash is part of the name behind the first component, which may be a drive.
pub proof fn literal_path_keeps_its_slashes(first: Seq<char>, name: Seq<char>)
    requires
        without_slashes(first),
        first.len() > 0,
        first != seq!['U', 'N', 'C'],
        name.len() > 0,
        forall|i: int| 0 <= i < name.len() ==> (#[trigger] name[i]) != '\\',
    ensures
        file_name(seq!['\\', '\\', '?', '\\'] + first.push('\\') + name) == name,
{
    let path = seq!['\\', '\\', '?', '\\'] + first.push('\\') + name;
    let n = first.len() as int;
    assert(forall|i: int| 0 <= i < n ==> path[4 + i] == first[i]);
    assert(path[4 + n] == '\\');
    assert(is_literal(path));
    assert(!names_share(path)) by {
        if names_share(path) {
            if n > 3 {
                assert(path[7] == first[3]);
            } else if n == 3 {
                assert(first =~= seq!['U', 'N', 'C']);
            } else {
                assert(path[4 + n] == '\\');
            }
        }
    }
    assert forall|i: int| 4 <= i < 4 + n implies !parts(#[trigger] path[i], true) by {
        assert(path[i] == first[i - 4]);
    }
    component_ends_at(path, 4, 4 + n, true);
    if drive_at(path, 4) && separator(path[6]) {
        if n > 2 {
            assert(path[6] == first[2]);
        }
        assert(n == 2) by {
            if n == 1 {
                assert(path[5] == '\\');
            }
        }
    }
    assert(root_len(path) == 4 + n);
    assert(path.subrange(5 + n, path.len() as int) =~= name);
    name_behind_root(path, 5 + n, name);
}

/// Behind the machine and the share of a path that is taken literally the name
/// begins.
pub proof fn literal_share_is_no_part_of_the_name(
    machine: Seq<char>,
    share: Seq<char>,
    name: Seq<char>,
)
    requires
        without_slashes(machine),
        without_slashes(share),
        share.len() > 0,
        name.len() > 0,
        forall|i: int| 0 <= i < name.len() ==> (#[trigger] name[i]) != '\\',
    ensures
        file_name(
            seq!['\\', '\\', '?', '\\', 'U', 'N', 'C', '\\'] + machine.push('\\') + share.push(
                '\\',
            ) + name,
        ) == name,
{
    let path = seq!['\\', '\\', '?', '\\', 'U', 'N', 'C', '\\'] + machine.push('\\')
        + share.push('\\') + name;
    let m = machine.len() as int;
    let s = share.len() as int;
    assert(forall|i: int| 0 <= i < m ==> path[8 + i] == machine[i]);
    assert(path[8 + m] == '\\');
    assert(forall|i: int| 0 <= i < s ==> path[9 + m + i] == share[i]);
    assert(path[9 + m + s] == '\\');
    assert(is_literal(path) && names_share(path));
    assert forall|i: int| 8 <= i < 8 + m implies !parts(#[trigger] path[i], true) by {
        assert(path[i] == machine[i - 8]);
    }
    component_ends_at(path, 8, 8 + m, true);
    assert forall|i: int| 9 + m <= i < 9 + m + s implies !parts(#[trigger] path[i], true) by {
        assert(path[i] == share[i - 9 - m]);
    }
    component_ends_at(path, 9 + m, 9 + m + s, true);
    assert(root_len(path) == 9 + m + s);
    assert(path.subrange(10 + m + s, path.len() as int) =~= name);
    name_behind_root(path, 10 + m + s, name);
}

/// Behind the machine and the share that follow two slashes the name begins.
pub proof fn share_is_no_part_of_the_name(
    machine: Seq<char>,
    share: Seq<char>,
    name: Seq<char>,
)
    requires
        without_slashes(machine),
        without_slashes(share),
        without_slashes(name),
        machine.len() > 0,
        machine[0] != '?' && machine[0] != '.',
        share.len() > 0,
        name.len() > 0,
        !(name.len() == 1 && name[0] == '.'),
    ensures
        file_name(seq!['\\', '\\'] + machine.push('\\') + share.push('\\') + name) == name,
{
    let path = seq!['\\', '\\'] + machine.push('\\') + share.push('\\') + name;
    let m = machine.len() as int;
    let s = share.len() as int;
    assert(forall|i: int| 0 <= i < m ==> path[2 + i] == machine[i]);
    assert(path[2 + m] == '\\');
    assert(forall|i: int| 0 <= i < s ==> path[3 + m + i] == share[i]);
    assert(path[3 + m + s] == '\\');
    assert(path[2] == machine[0]);
    assert(!is_literal(path));
    assert forall|i: int| 2 <= i < 2 + m implies !parts(#[trigger] path[i], false) by {
        assert(path[i] == machine[i - 2]);
    }
    component_ends_at(path, 2, 2 + m, false);
    assert forall|i: int| 3 + m <= i < 3 + m + s implies !parts(#[trigger] path[i], false) by {
        assert(path[i] == share[i - 3 - m]);
    }
    component_ends_at(path, 3 + m, 3 + m + s, false);
    assert(root_len(path) == 3 + m + s);
    assert(path.subrange(4 + m + s, path.len() as int) =~= name);
    name_behind_root(path, 4 + m + s, name);
}

/// Behind a device, which follows two slashes, a dot and a slash, the name begins.
pub proof fn device_is_no_part_of_the_name(device: Seq<char>, name: Seq<char>)
    requires
        without_slashes(device),
        without_slashes(name),
        name.len() > 0,
        !(name.len() == 1 && name[0] == '.'),
    ensures
        file_name(seq!['\\', '\\', '.', '\\'] + device.push('\\') + name) == name,
{
    let path = seq!['\\', '\\', '.', '\\'] + device.push('\\') + name;
    let n = device.len() as int;
    assert(forall|i: int| 0 <= i < n ==> path[4 + i] == device[i]);
    assert(path[4 + n] == '\\');
    assert(!is_literal(path));
    assert forall|i: int| 4 <= i < 4 + n implies !parts(#[trigger] path[i], false) by {
        assert(path[i] == device[i - 4]);
    }
    component_ends_at(path, 4, 4 + n, false);
    assert(root_len(path) == 4 + n);
    assert(path.subrange(5 + n, path.len() as int) =~= name);
    name_behind_root(path, 5 + n, name);
}

/// A slash at the end of a name in a path that is not taken literally is no part of
/// it, nor is a single dot behind such a slash: the last component stays.
pub proof fn slash_at_the_end_does_not_count(body: Seq<char>, slash: char)
    requires
        slash == '/' || slash == '\\',
    ensures
        without_tail(body.push(slash), false) == without_tail(body, false),
        without_tail(body.push(slash).push('.'), false) == without_tail(body, false),
        without_tail(body.push('\\'), true) == without_tail(body, true),
        body.len() > 0 && body.last() == '.' ==> without_tail(body, true) == body,
        without_tail(body.push('/'), true) == body.push('/'),
{
    assert(body.push(slash).drop_last() =~= body);
    assert(body.push('\\').drop_last() =~= body);
    let dotted = body.push(slash).push('.');
    assert(dotted.drop_last() =~= body.push(slash));
    assert(dotted[dotted.len() - 2] == slash);
    assert(ends_in_dot(dotted));
    assert(without_tail(dotted, false) == without_tail(dotted.drop_last(), false));
    assert(without_tail(body.push(slash), false) == without_tail(body, false));
}

/// The extension of a name is what is behind its last dot, unless that is its first
/// character; the way up, two dots, has none.
pub proof fn extension_is_behind_the_last_dot(stem: Seq<char>, ending: Seq<char>)
    requires
        forall|i: int| 0 <= i < ending.len() ==> (#[trigger] ending[i]) != '.',
    ensures
        stem.len() > 0 && !(stem == seq!['.'] && ending.len() == 0) ==> extension_of_name(
            stem.push('.') + ending,
        ) == Some(ending),
        extension_of_name(seq!['.', '.']) is None,
        extension_of_name(Seq::empty()) is None,
        extension_of_name(seq!['.'] + ending) is None,
        extension_of_name(ending) is None,
{
    let name = stem.push('.') + ending;
    if stem.len() > 0 && !(stem == seq!['.'] && ending.len() == 0) {
        if name =~= seq!['.', '.'] {
            assert(stem.len() + 1 + ending.len() == 2);
            assert(name[0] == stem[0]);
            assert(stem =~= seq!['.']);
        }
        let rest = name.subrange(1, name.len() as int);
        let dot = stem.len() - 1;
        assert(rest[dot] == '.');
        assert forall|i: int| dot < i < rest.len() implies #[trigger] rest[i] != '.' by {
            assert(rest[i] == ending[i - dot - 1]);
        }
        behind_last_dot_is_suffix(rest, dot);
        assert(rest.subrange(dot + 1, rest.len() as int) =~= ending);
    }
    let hidden = seq!['.'] + ending;
    if !(hidden =~= seq!['.', '.']) {
        assert(hidden.subrange(1, hidden.len() as int) =~= ending);
        behind_last_dot_is_suffix(ending, -1);
    }
    if ending.len() > 0 {
        let rest = ending.subrange(1, ending.len() as int);
        assert forall|i: int| -1 < i < rest.len() implies #[trigger] rest[i] != '.' by {
            assert(rest[i] == ending[i + 1]);
        }
        behind_last_dot_is_suffix(rest, -1);
    }
}

/// Behind a drive in a path that is taken literally either slash stands for the
/// root, and the name begins behind it.
pub proof fn literal_drive_is_no_part_of_the_name(letter: char, slash: char, name: Seq<char>)
    requires
        65 <= letter as int <= 90 || 97 <= letter as int <= 122,
        slash == '/' || slash == '\\',
        name.len() > 0,
        forall|i: int| 0 <= i < name.len() ==> (#[trigger] name[i]) != '\\',
    ensures
        file_name(seq!['\\', '\\', '?', '\\', letter, ':', slash] + name) == name,
{
    let path = seq!['\\', '\\', '?', '\\', letter, ':', slash] + name;
    assert(is_literal(path));
    assert(path[5] == ':');
    assert(!names_share(path));
    assert(drive_at(path, 4) && separator(path[6]));
    assert(path.subrange(7, path.len() as int) =~= name);
    name_behind_root(path, 7, name);
}

/// What follows `UNC` in a path that is taken literally is a machine behind either
/// slash; with nothing behind machine and share there is no name, dots or not.
pub proof fn literal_share_is_no_file(slash: char, machine: Seq<char>, share: Seq<char>)
    requires
        slash == '/' || slash == '\\',
        without_slashes(machine),
        without_slashes(share),
        share.len() > 0,
    ensures
        extension(
            seq!['\\', '\\', '?', '\\', 'U', 'N', 'C', slash] + machine.push('\\') + share,
        ) is None,
{
    let path = seq!['\\', '\\', '?', '\\', 'U', 'N', 'C', slash] + machine.push('\\') + share;
    let m = machine.len() as int;
    assert(forall|i: int| 0 <= i < m ==> path[8 + i] == machine[i]);
    assert(path[8 + m] == '\\');
    assert(forall|i: int| 0 <= i < share.len() ==> path[9 + m + i] == share[i]);
    assert(is_literal(path) && names_share(path));
    assert forall|i: int| 8 <= i < 8 + m implies !parts(#[trigger] path[i], true) by {
        assert(path[i] == machine[i - 8]);
    }
    component_ends_at(path, 8, 8 + m, true);
    assert forall|i: int| 9 + m <= i < path.len() implies !parts(#[trigger] path[i], true) by {
        assert(path[i] == share[i - 9 - m]);
    }
    component_ends_at(path, 9 + m, path.len() as int, true);
    assert(root_len(path) == path.len());
    let body = path.subrange(body_start(path), path.len() as int);
    assert(body =~= Seq::<char>::empty());
}

} // verus!
