//! Invite links of the form `rustconnect://CODE`, and the room code that a
//! launch argument in that form carries.

use vstd::prelude::*;

use crate::text::{
    has_prefix, remove_char, remove_matches, starts_with, without_char, without_matches,
};

verus! {

/// The characters of the invite scheme `rustconnect://`.
pub open spec fn invite_scheme() -> Seq<char> {
    seq!['r', 'u', 's', 't', 'c', 'o', 'n', 'n', 'e', 'c', 't', ':', '/', '/']
}

/// The invite scheme as a string slice.
pub fn scheme() -> (s: &'static str)
    ensures
        s@ == invite_scheme(),
{
    proof {
        reveal_strlit("rustconnect://");
    }
    let s = "rustconnect://";
    assert(s@ =~= invite_scheme());
    s
}

/// The room code that a launch argument names: present when the argument
/// begins with the scheme, and then the argument with every copy of the
/// scheme and every `/` removed.
pub open spec fn link_room(arg: Seq<char>) -> Option<Seq<char>> {
    if starts_with(arg, invite_scheme()) {
        Some(without_char(without_matches(arg, invite_scheme()), '/'))
    } else {
        None
    }
}

/// The room code that the program's arguments name: that of the first
/// argument after the program's name, or empty.
pub open spec fn launch_room(args: Seq<Seq<char>>) -> Seq<char> {
    if args.len() > 1 {
        match link_room(args[1]) {
            Some(code) => code,
            None => Seq::empty(),
        }
    } else {
        Seq::empty()
    }
}

/// The invite link for a room: the scheme followed by the room code.
pub fn invite_link(room_code: &str) -> (r: String)
    ensures
        r@ == invite_scheme() + room_code@,
{
    let mut r = String::from_str(scheme());
    r.append(room_code);
    r
}

/// The room code that a launch argument carries, if it is an invite link.
pub fn room_from_link(arg: &str) -> (r: Option<String>)
    ensures
        r matches Some(code) ==> link_room(arg@) == Some(code@),
        r is None ==> link_room(arg@) is None,
{
    if has_prefix(arg, scheme()) {
        let stripped = remove_matches(arg, scheme());
        Some(remove_char(stripped.as_str(), '/'))
    } else {
        None
    }
}

/// The room code to prefill from the program's arguments (the program's
/// name first).
pub fn initial_room_code(args: &Vec<String>) -> (r: String)
    ensures
        r@ == launch_room(args@.map_values(|a: String| a@)),
{
    let ghost views = args@.map_values(|a: String| a@);
    if args.len() > 1 {
        assert(views[1] == args@[1]@);
        match room_from_link(args[1].as_str()) {
            Some(code) => code,
            None => String::new(),
        }
    } else {
        String::new()
    }
}

/// The command the system runs to open an invite link with this program:
/// the program's path in quotes, then the quoted link placeholder `%1`.
pub fn open_command(exe_path: &str) -> (r: String)
    ensures
        r@ == "\""@ + exe_path@ + "\" \"%1\""@,
{
    let mut r = String::from_str("\"");
    r.append(exe_path);
    r.append("\" \"%1\"");
    r
}

proof fn lemma_without_char_absent(s: Seq<char>, c: char)
    requires
        !s.contains(c),
    ensures
        without_char(s, c) == s,
    decreases s.len(),
{
    if s.len() > 0 {
        let t = s.drop_last();
        assert(!t.contains(c)) by {
            if t.contains(c) {
                let k = choose|k: int| 0 <= k < t.len() && t[k] == c;
                assert(s[k] == c);
            }
        }
        assert(s.last() != c) by {
            assert(s[s.len() - 1] == s.last());
        }
        lemma_without_char_absent(t, c);
        assert(t.push(s.last()) =~= s);
    }
}

proof fn lemma_without_scheme_absent(s: Seq<char>)
    requires
        !s.contains('/'),
    ensures
        without_matches(s, invite_scheme()) == s,
    decreases s.len(),
{
    if s.len() > 0 {
        let p = invite_scheme();
        if starts_with(s, p) {
            assert(s.subrange(0, p.len() as int)[12] == '/');
            assert(s[12] == '/');
        }
        let t = s.drop_first();
        assert(!t.contains('/')) by {
            if t.contains('/') {
                let k = choose|k: int| 0 <= k < t.len() && t[k] == '/';
                assert(s[k + 1] == '/');
            }
        }
        lemma_without_scheme_absent(t);
        assert(seq![s[0]] + t =~= s);
    }
}

/// A code read back from its own invite link is the code itself, for every
/// code without a `/`.
pub proof fn lemma_invite_link_round_trip(code: Seq<char>)
    requires
        !code.contains('/'),
    ensures
        link_room(invite_scheme() + code) == Some(code),
{
    let p = invite_scheme();
    let s = p + code;
    assert(s.subrange(0, p.len() as int) =~= p);
    assert(s.skip(p.len() as int) =~= code);
    lemma_without_scheme_absent(code);
    lemma_without_char_absent(code, '/');
}

proof fn lemma_without_char_drops(s: Seq<char>, c: char)
    ensures
        !without_char(s, c).contains(c),
    decreases s.len(),
{
    if s.len() > 0 {
        lemma_without_char_drops(s.drop_last(), c);
        let t = without_char(s.drop_last(), c);
        if s.last() != c {
            assert(!t.push(s.last()).contains(c)) by {
                if t.push(s.last()).contains(c) {
                    let k = choose|k: int| 0 <= k < t.len() + 1 && t.push(s.last())[k] == c;
                    if k < t.len() {
                        assert(t[k] == c);
                    }
                }
            }
        }
    }
}

/// A room code read from a launch argument never holds a `/`.
pub proof fn lemma_link_room_has_no_slash(arg: Seq<char>)
    ensures
        link_room(arg) matches Some(code) ==> !code.contains('/'),
{
    lemma_without_char_drops(without_matches(arg, invite_scheme()), '/');
}

} // verus!
