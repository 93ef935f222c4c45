use vstd::prelude::*;
use vstd::string::*;

verus! {

/// The first char of what `char::to_lowercase` yields for `c`.
pub uninterp spec fn lowercase_first(c: char) -> char;

/// The first char of what `char::to_uppercase` yields for `c`.
pub uninterp spec fn uppercase_first(c: char) -> char;

/// Whether `c` is an ASCII char.
pub open spec fn is_ascii_char(c: char) -> bool {
    (c as u32) < 128
}

/// The ASCII lowercase of `c`: letters 'A' to 'Z' become 'a' to 'z', every
/// other char stays.
pub open spec fn ascii_lower(c: char) -> char {
    if 'A' <= c && c <= 'Z' {
        ((c as u32) + 32) as char
    } else {
        c
    }
}

/// The ASCII uppercase of `c`: letters 'a' to 'z' become 'A' to 'Z', every
/// other char stays.
pub open spec fn ascii_upper(c: char) -> char {
    if 'a' <= c && c <= 'z' {
        ((c as u32) - 32) as char
    } else {
        c
    }
}

/// Calls `char::to_lowercase` and takes the first char it yields (it always
/// yields at least one). Claims that the result is the named one, and, as
/// the std documentation gives it, that an ASCII char maps to its ASCII
/// lowercase.
#[verifier::external_body]
fn first_of_lowercase(c: char) -> (r: char)
    ensures
        r == lowercase_first(c),
        is_ascii_char(c) ==> r == ascii_lower(c),
{
    c.to_lowercase().next().unwrap()
}

/// Calls `char::to_uppercase` and takes the first char it yields (it always
/// yields at least one). Claims that the result is the named one, and, as
/// the std documentation gives it, that an ASCII char maps to its ASCII
/// uppercase.
#[verifier::external_body]
fn first_of_uppercase(c: char) -> (r: char)
    ensures
        r == uppercase_first(c),
        is_ascii_char(c) ==> r == ascii_upper(c),
{
    c.to_uppercase().next().unwrap()
}

/// Calls `String::push`, which appends `c`.
#[verifier::external_body]
fn push_char(s: &mut String, c: char)
    ensures
        final(s)@ == old(s)@.push(c),
{
    s.push(c);
}

/// The selector name of the setter of property `prop` (without the
/// terminating NUL): "set", the first char in upper case, the rest, ':'.
pub open spec fn setter_selector(prop: Seq<char>) -> Seq<char> {
    seq!['s', 'e', 't'] + seq![uppercase_first(prop[0])] + prop.subrange(1, prop.len() as int)
        + seq![':']
}

/// `setter_selector` when the property's first char is ASCII.
pub open spec fn setter_selector_ascii(prop: Seq<char>) -> Seq<char> {
    seq!['s', 'e', 't'] + seq![ascii_upper(prop[0])] + prop.subrange(1, prop.len() as int) + seq![
        ':',
    ]
}

/// The instance variable that a setter selector writes: the name between
/// "set" and the final ':', its first char in lower case, after '_'.
pub open spec fn setter_ivar(sel: Seq<char>) -> Seq<char> {
    seq!['_', lowercase_first(sel[3])] + sel.subrange(4, sel.len() - 1)
}

/// `setter_ivar` when the char after "set" is ASCII.
pub open spec fn setter_ivar_ascii(sel: Seq<char>) -> Seq<char> {
    seq!['_', ascii_lower(sel[3])] + sel.subrange(4, sel.len() - 1)
}

/// The instance variable that a getter selector (the property's own name)
/// reads, which is also the one the property is declared with: '_' and the
/// name.
pub open spec fn getter_ivar(sel: Seq<char>) -> Seq<char> {
    seq!['_'] + sel
}

/// The selector name to register for the setter of property `prop`,
/// NUL-terminated for the runtime's C interface.
pub fn setter_selector_name(prop: &str) -> (name: String)
    requires
        prop@.len() >= 1,
    ensures
        name@ == setter_selector(prop@) + seq!['\0'],
        is_ascii_char(prop@[0]) ==> name@ == setter_selector_ascii(prop@) + seq!['\0'],
{
    proof {
        reveal_strlit("set");
    }
    let mut name = String::from_str("set");
    let first = prop.get_char(0);
    let upper = first_of_uppercase(first);
    push_char(&mut name, upper);
    let len = prop.unicode_len();
    let rest = prop.substring_char(1, len);
    name.append(rest);
    push_char(&mut name, ':');
    push_char(&mut name, '\0');
    assert(name@ =~= setter_selector(prop@) + seq!['\0']);
    name
}

/// The instance variable that the setter with selector name `sel_name`
/// writes. The selector has the shape of a setter: three ASCII chars
/// ("set"), at least one more char, and an ASCII char (':') at the end.
pub fn ivar_name_for_setter(sel_name: &str) -> (ivar: String)
    requires
        sel_name@.len() >= 5,
        is_ascii_char(sel_name@[0]),
        is_ascii_char(sel_name@[1]),
        is_ascii_char(sel_name@[2]),
        is_ascii_char(sel_name@[sel_name@.len() - 1]),
    ensures
        ivar@ == setter_ivar(sel_name@),
        is_ascii_char(sel_name@[3]) ==> ivar@ == setter_ivar_ascii(sel_name@),
{
    proof {
        reveal_strlit("_");
    }
    let len = sel_name.unicode_len();
    let first = sel_name.get_char(3);
    let lower = first_of_lowercase(first);
    let mut ivar = String::from_str("_");
    push_char(&mut ivar, lower);
    let rest = sel_name.substring_char(4, len - 1);
    ivar.append(rest);
    assert(ivar@ =~= setter_ivar(sel_name@));
    ivar
}

/// The instance variable that the getter with selector name `sel_name`
/// reads.
pub fn ivar_name_for_getter(sel_name: &str) -> (ivar: String)
    ensures
        ivar@ == getter_ivar(sel_name@),
{
    proof {
        reveal_strlit("_");
    }
    let ivar = String::from_str("_");
    let ivar = ivar.concat(sel_name);
    assert(ivar@ =~= getter_ivar(sel_name@));
    ivar
}

/// A property's setter and getter address the same instance variable when
/// the property's name starts with an ASCII char that is not an upper-case
/// letter (the setter lowers the char that its selector raised).
pub proof fn lemma_setter_and_getter_share_ivar(prop: Seq<char>)
    requires
        prop.len() >= 1,
        is_ascii_char(prop[0]),
        !('A' <= prop[0] && prop[0] <= 'Z'),
    ensures
        setter_selector_ascii(prop).len() >= 5,
        setter_ivar_ascii(setter_selector_ascii(prop)) == getter_ivar(prop),
{
    let sel = setter_selector_ascii(prop);
    assert(sel[3] == ascii_upper(prop[0]));
    assert(ascii_lower(ascii_upper(prop[0])) == prop[0]);
    assert(sel.subrange(4, sel.len() - 1) =~= prop.subrange(1, prop.len() as int));
    assert(setter_ivar_ascii(sel) =~= getter_ivar(prop));
}

} // verus!
