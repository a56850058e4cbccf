//! Header collections: what they hold, and the two passes the proxy makes over
//! them, removal before forwarding and addition before replying.
//!
//! The collection itself is `http`'s `HeaderMap`. Its contents are named by
//! [`header_fields`], and the functions at the end of this file are the only
//! ones whose contracts are taken on trust.

use axum::http::HeaderMap;
use axum::http::HeaderName;
use axum::http::HeaderValue;
use crate::text::{is_token, lowered};
use std::str::FromStr;
use vstd::prelude::*;
use vstd::utf8::encode_utf8;

verus! {

/// The contents of a header collection: each name, as the collection holds
/// it, with its values in the order in which they were added. A collection
/// holds its names in lower case. Not every name it holds is a header name in
/// the sense of `is_header_name`: one that came in over HTTP/2 may hold a
/// character that is no token character.
pub type Fields = Map<Seq<char>, Seq<Seq<u8>>>;

/// A rule that adds a header: its name and its value, as configured.
pub type Addition = (Seq<char>, Seq<char>);

/// The longest header name, in bytes.
pub const MAX_HEADER_NAME_LEN: usize = 65535;

/// A collection that holds fewer names than this has room for one more.
pub const HEADER_ROOM: usize = 4096;

/// A header name is a token of at most `MAX_HEADER_NAME_LEN` characters.
pub open spec fn is_header_name(name: Seq<char>) -> bool {
    is_token(name) && name.len() <= MAX_HEADER_NAME_LEN
}

/// The characters of a header value: a tab, or anything from the space on but
/// the delete character.
pub open spec fn is_header_value_char(c: char) -> bool {
    c == '\t' || (' ' <= c && c != '\x7f')
}

/// A header value holds no control character but the tab.
pub open spec fn is_header_value(value: Seq<char>) -> bool {
    forall|i: int| 0 <= i < value.len() ==> is_header_value_char(#[trigger] value[i])
}

/// The key under which a header of this name is held: names match without
/// regard to ASCII case.
pub open spec fn header_key(name: Seq<char>) -> Seq<char> {
    lowered(name)
}

/// The bytes that a configured value puts on the wire.
pub open spec fn header_bytes(value: Seq<char>) -> Seq<u8> {
    encode_utf8(value)
}

/// Whether a collection that holds `fields` has room for `more` names.
pub open spec fn has_room(fields: Fields, more: nat) -> bool {
    fields.dom().finite() && fields.dom().len() + more <= HEADER_ROOM
}

/// The keys that a list of names stands for. A string that is no header name
/// stands for none: it names no header, not even one that is spelled like it.
pub open spec fn header_keys(names: Seq<Seq<char>>) -> Set<Seq<char>> {
    Set::new(
        |key: Seq<char>|
            exists|i: int|
                0 <= i < names.len() && is_header_name(names[i]) && header_key(names[i]) == key,
    )
}

/// `fields` without every header that one of `names` names.
pub open spec fn without(fields: Fields, names: Seq<Seq<char>>) -> Fields {
    fields.remove_keys(header_keys(names))
}

/// Whether no two of the rules are for one header: their names differ even
/// without regard to ASCII case.
pub open spec fn names_are_distinct(rules: Seq<Addition>) -> bool {
    forall|i: int, j: int|
        0 <= i < j < rules.len() ==> header_key((#[trigger] rules[i]).0) != header_key(
            (#[trigger] rules[j]).0,
        )
}

/// Whether the rule can be applied at all: its name and value are well formed.
pub open spec fn is_addition(rule: Addition) -> bool {
    is_header_name(rule.0) && is_header_value(rule.1)
}

/// `fields` after the rule is applied: its value is the only one under its name.
pub open spec fn added(fields: Fields, rule: Addition) -> Fields {
    fields.insert(header_key(rule.0), seq![header_bytes(rule.1)])
}

/// `fields` after the rules are gone through in order, where `applied` says of
/// each rule whether it was applied or skipped.
pub open spec fn with_additions(fields: Fields, rules: Seq<Addition>, applied: Seq<bool>) -> Fields
    recommends
        applied.len() == rules.len(),
    decreases rules.len(),
{
    if rules.len() == 0 {
        fields
    } else {
        let before = with_additions(fields, rules.drop_last(), applied.drop_last());
        if applied.last() {
            added(before, rules.last())
        } else {
            before
        }
    }
}

/// For each rule, whether it is well formed.
pub open spec fn well_formed(rules: Seq<Addition>) -> Seq<bool> {
    Seq::new(rules.len(), |i: int| is_addition(rules[i]))
}

/// `fields` after every well-formed rule is applied, in order.
pub open spec fn augmented(fields: Fields, rules: Seq<Addition>) -> Fields {
    with_additions(fields, rules, well_formed(rules))
}

/// Removes from `headers` every header that one of `names` names, whatever the
/// case of its letters. A string that is no header name names no header and
/// removes none.
pub fn remove_headers(headers: &mut HeaderMap<HeaderValue>, names: &Vec<String>)
    ensures
        header_fields(*final(headers)) == without(header_fields(*old(headers)), names.deep_view()),
{
    let ghost before = header_fields(*headers);
    let mut i: usize = 0;
    while i < names.len()
        invariant
            i <= names.len(),
            header_fields(*headers) == without(before, names.deep_view().take(i as int)),
        decreases names.len() - i,
    {
        let ghost done = names.deep_view().take(i as int);
        remove_header(headers, names[i].as_str());
        proof {
            let name = names[i as int]@;
            assert(names.deep_view().take(i + 1) =~= done.push(name));
            keys_of_one_more(done, name);
            if is_header_name(name) {
                assert(without(before, done).remove(header_key(name)) =~= without(
                    before,
                    done.push(name),
                ));
            }
        }
        i += 1;
    }
    assert(names.deep_view().take(i as int) =~= names.deep_view());
}

/// One more header name stands for one more key, and one more string that is
/// no header name for none.
proof fn keys_of_one_more(names: Seq<Seq<char>>, name: Seq<char>)
    ensures
        header_keys(names.push(name)) == if is_header_name(name) {
            header_keys(names).insert(header_key(name))
        } else {
            header_keys(names)
        },
{
    let longer = names.push(name);
    let keys = if is_header_name(name) {
        header_keys(names).insert(header_key(name))
    } else {
        header_keys(names)
    };
    assert forall|key: Seq<char>| keys.contains(key) implies header_keys(longer).contains(
        key,
    ) by {
        if is_header_name(name) && key == header_key(name) {
            assert(is_header_name(longer[names.len() as int]));
            assert(header_key(longer[names.len() as int]) == key);
        } else {
            let j = choose|j: int|
                0 <= j < names.len() && is_header_name(names[j]) && header_key(names[j]) == key;
            assert(is_header_name(longer[j]) && header_key(longer[j]) == key);
        }
    }
    assert forall|key: Seq<char>| header_keys(longer).contains(key) implies keys.contains(
        key,
    ) by {
        let j = choose|j: int|
            0 <= j < longer.len() && is_header_name(longer[j]) && header_key(longer[j]) == key;
        if j < names.len() {
            assert(is_header_name(names[j]) && header_key(names[j]) == key);
        }
    }
    assert(header_keys(longer) =~= keys);
}

/// Applies one rule to `headers`: where its name and value are well formed, its
/// value replaces what `headers` held under its name. A rule that is not well
/// formed is skipped, and so is one for which the collection has no room left.
pub fn add_header(headers: &mut HeaderMap<HeaderValue>, name: &str, value: &str) -> (applied: bool)
    ensures
        applied ==> is_addition((name@, value@)),
        is_addition((name@, value@)) && has_room(header_fields(*old(headers)), 1) ==> applied,
        header_fields(*final(headers)) == if applied {
            added(header_fields(*old(headers)), (name@, value@))
        } else {
            header_fields(*old(headers))
        },
{
    if header_name_is_valid(name) && header_value_is_valid(value) {
        insert_header(headers, name, value)
    } else {
        false
    }
}

/// Applies the rules to `headers` in order and says of each whether it was
/// applied. Where the collection has room for them all, every well-formed rule
/// is applied.
pub fn add_headers(headers: &mut HeaderMap<HeaderValue>, rules: &Vec<(String, String)>) -> (applied:
    Vec<bool>)
    ensures
        applied@.len() == rules@.len(),
        forall|i: int|
            0 <= i < rules@.len() && applied@[i] ==> is_addition(#[trigger] rules.deep_view()[i]),
        header_fields(*final(headers)) == with_additions(
            header_fields(*old(headers)),
            rules.deep_view(),
            applied@,
        ),
        has_room(header_fields(*old(headers)), rules@.len()) ==> {
            &&& applied@ == well_formed(rules.deep_view())
            &&& header_fields(*final(headers)) == augmented(
                header_fields(*old(headers)),
                rules.deep_view(),
            )
        },
{
    let ghost before = header_fields(*headers);
    let mut applied: Vec<bool> = Vec::new();
    let mut i: usize = 0;
    while i < rules.len()
        invariant
            i <= rules.len(),
            applied@.len() == i,
            forall|j: int|
                0 <= j < i && applied@[j] ==> is_addition(#[trigger] rules.deep_view()[j]),
            header_fields(*headers) == with_additions(
                before,
                rules.deep_view().take(i as int),
                applied@,
            ),
            has_room(before, rules@.len()) ==> {
                &&& has_room(header_fields(*headers), (rules@.len() - i) as nat)
                &&& forall|j: int| 0 <= j < i ==> applied@[j] == is_addition(rules.deep_view()[j])
            },
        decreases rules.len() - i,
    {
        let ghost done = rules.deep_view().take(i as int);
        let ghost flags = applied@;
        let rule = &rules[i];
        let one = add_header(headers, rule.0.as_str(), rule.1.as_str());
        applied.push(one);
        proof {
            let next = rules.deep_view().take(i + 1);
            assert(next.drop_last() =~= done);
            assert(applied@.drop_last() =~= flags);
        }
        i += 1;
    }
    assert(rules.deep_view().take(i as int) =~= rules.deep_view());
    proof {
        if has_room(before, rules@.len()) {
            assert(applied@ =~= well_formed(rules.deep_view()));
        }
    }
    applied
}

/// Removing no header leaves the collection as it was.
pub proof fn removing_nothing_keeps_all(fields: Fields)
    ensures
        without(fields, Seq::empty()) == fields,
{
}

/// Removing headers that the collection does not hold leaves it as it was.
pub proof fn removing_absent_names_keeps_all(fields: Fields, names: Seq<Seq<char>>)
    requires
        forall|i: int|
            0 <= i < names.len() && is_header_name(names[i]) ==> !fields.contains_key(
                #[trigger] header_key(names[i]),
            ),
    ensures
        without(fields, names) == fields,
{
    assert(without(fields, names) =~= fields);
}

/// Strings that are no header names remove nothing, whatever the collection
/// holds.
pub proof fn removing_what_is_no_name_keeps_all(fields: Fields, names: Seq<Seq<char>>)
    requires
        forall|i: int| 0 <= i < names.len() ==> !is_header_name(#[trigger] names[i]),
    ensures
        without(fields, names) == fields,
{
    assert(without(fields, names) =~= fields);
}

/// After the removal the collection holds no header under a header name that
/// is among `names`, whatever the case of its letters there.
pub proof fn removed_headers_are_gone(fields: Fields, names: Seq<Seq<char>>, i: int)
    requires
        0 <= i < names.len(),
        is_header_name(names[i]),
    ensures
        !without(fields, names).contains_key(header_key(names[i])),
{
}

/// Removing the same headers a second time changes nothing.
pub proof fn removing_twice_is_removing_once(fields: Fields, names: Seq<Seq<char>>)
    ensures
        without(without(fields, names), names) == without(fields, names),
{
}

/// The index of the last rule for the header held under `key` that was
/// applied, if there is one.
pub open spec fn last_applied(rules: Seq<Addition>, applied: Seq<bool>, key: Seq<char>) -> Option<
    int,
>
    recommends
        applied.len() == rules.len(),
    decreases rules.len(),
{
    if rules.len() == 0 {
        None
    } else if applied.last() && header_key(rules.last().0) == key {
        Some(rules.len() - 1)
    } else {
        last_applied(rules.drop_last(), applied.drop_last(), key)
    }
}

/// What the collection holds under `key` after the additions: the value of the
/// last rule applied for that header, alone, and what it held before where no
/// rule was applied for it.
pub proof fn additions_hold(
    fields: Fields,
    rules: Seq<Addition>,
    applied: Seq<bool>,
    key: Seq<char>,
)
    requires
        applied.len() == rules.len(),
    ensures
        match last_applied(rules, applied, key) {
            Some(i) => {
                &&& 0 <= i < rules.len()
                &&& applied[i]
                &&& header_key(rules[i].0) == key
                &&& with_additions(fields, rules, applied).contains_key(key)
                &&& with_additions(fields, rules, applied)[key] == seq![header_bytes(rules[i].1)]
            },
            None => {
                &&& with_additions(fields, rules, applied).contains_key(key) == fields.contains_key(
                    key,
                )
                &&& fields.contains_key(key) ==> with_additions(fields, rules, applied)[key]
                    == fields[key]
                &&& forall|i: int|
                    0 <= i < rules.len() && applied[i] ==> header_key((#[trigger] rules[i]).0)
                        != key
            },
        },
    decreases rules.len(),
{
    if rules.len() > 0 {
        let shorter = rules.drop_last();
        additions_hold(fields, shorter, applied.drop_last(), key);
        assert forall|i: int| 0 <= i < shorter.len() implies shorter[i] == rules[i]
            && applied.drop_last()[i] == applied[i] by {}
    }
}

/// Where no two rules are for one header, the order of the rules does not
/// matter: after the additions the collection holds, under the name of each
/// rule that was applied, the value of that rule alone.
pub proof fn each_addition_holds(
    fields: Fields,
    rules: Seq<Addition>,
    applied: Seq<bool>,
    i: int,
)
    requires
        applied.len() == rules.len(),
        names_are_distinct(rules),
        0 <= i < rules.len(),
        applied[i],
    ensures
        with_additions(fields, rules, applied).contains_key(header_key(rules[i].0)),
        with_additions(fields, rules, applied)[header_key(rules[i].0)] == seq![
            header_bytes(rules[i].1),
        ],
{
    additions_hold(fields, rules, applied, header_key(rules[i].0));
}

/// The additions add at most one name for each rule.
pub proof fn additions_take_room(fields: Fields, rules: Seq<Addition>, applied: Seq<bool>)
    requires
        applied.len() == rules.len(),
        fields.dom().finite(),
    ensures
        with_additions(fields, rules, applied).dom().finite(),
        with_additions(fields, rules, applied).dom().len() <= fields.dom().len() + rules.len(),
    decreases rules.len(),
{
    if rules.len() > 0 {
        additions_take_room(fields, rules.drop_last(), applied.drop_last());
    }
}

/// A collection with room for the rules twice over takes every well-formed
/// rule in a first pass, has room for them all in a second, and holds after
/// the second what it held after the first.
pub proof fn a_second_pass_changes_nothing(fields: Fields, rules: Seq<Addition>)
    requires
        has_room(fields, 2 * rules.len()),
    ensures
        has_room(fields, rules.len()),
        has_room(augmented(fields, rules), rules.len()),
        augmented(augmented(fields, rules), rules) == augmented(fields, rules),
{
    additions_take_room(fields, rules, well_formed(rules));
    adding_twice_is_adding_once(fields, rules, well_formed(rules));
}

/// Applying the same rules a second time changes nothing: an addition
/// overwrites, it never adds a second value.
pub proof fn adding_twice_is_adding_once(fields: Fields, rules: Seq<Addition>, applied: Seq<bool>)
    requires
        applied.len() == rules.len(),
    ensures
        with_additions(with_additions(fields, rules, applied), rules, applied) == with_additions(
            fields,
            rules,
            applied,
        ),
{
    let once = with_additions(fields, rules, applied);
    let twice = with_additions(once, rules, applied);
    assert forall|key: Seq<char>| #[trigger]
        twice.dom().contains(key) == once.dom().contains(key) by {
        additions_hold(fields, rules, applied, key);
        additions_hold(once, rules, applied, key);
    }
    assert forall|key: Seq<char>| once.dom().contains(key) implies #[trigger] twice[key]
        == once[key] by {
        additions_hold(fields, rules, applied, key);
        additions_hold(once, rules, applied, key);
    }
}

/// What a header map holds: under each name, as the map holds it, the values
/// of the headers of that name, in the order in which they were added. The map
/// holds names in lower case; a name that was made for HTTP/2 may hold a
/// character that `HeaderName::from_str` refuses.
pub uninterp spec fn header_fields(headers: HeaderMap<HeaderValue>) -> Fields;

/// `http`'s multimap of headers, taken as it is; what one holds is told by
/// `header_fields`.
#[verifier::external_type_specification]
#[verifier::external_body]
#[verifier::reject_recursive_types(T)]
pub struct ExHeaderMap<T>(axum::http::HeaderMap<T>);

/// `http`'s header value, the kind of value that the maps of the proxy hold.
#[verifier::external_type_specification]
#[verifier::external_body]
pub struct ExHeaderValue(axum::http::HeaderValue);

/// `HeaderMap::clone`: the copy holds what the map holds.
#[verifier::external_body]
pub(crate) fn clone_headers(headers: &HeaderMap<HeaderValue>) -> (copy: HeaderMap<HeaderValue>)
    ensures
        header_fields(copy) == header_fields(*headers),
{
    headers.clone()
}

/// `HeaderMap::remove` with a string as the key. The string is read as
/// `HeaderName::from_str` reads it: where it is a header name, every value
/// held under it goes, and it is matched without regard to ASCII case; where
/// it is none, it finds nothing and the map holds what it held, even a name
/// that is spelled like it.
#[verifier::external_body]
pub(crate) fn remove_header(headers: &mut HeaderMap<HeaderValue>, name: &str)
    ensures
        header_fields(*final(headers)) == if is_header_name(name@) {
            header_fields(*old(headers)).remove(header_key(name@))
        } else {
            header_fields(*old(headers))
        },
{
    headers.remove(name);
}

/// `HeaderName::from_str`: it accepts tokens of at most `MAX_HEADER_NAME_LEN`
/// bytes and nothing else.
#[verifier::external_body]
pub(crate) fn header_name_is_valid(name: &str) -> (valid: bool)
    ensures
        valid == is_header_name(name@),
{
    HeaderName::from_str(name).is_ok()
}

/// `HeaderValue::from_str`: it accepts a string unless one of its bytes is a
/// control character other than the tab.
#[verifier::external_body]
pub(crate) fn header_value_is_valid(value: &str) -> (valid: bool)
    ensures
        valid == is_header_value(value@),
{
    HeaderValue::from_str(value).is_ok()
}

/// `HeaderMap::try_insert`: on success the value is the only one held under
/// the name, which is kept in lower case; when the map cannot grow any more it
/// fails and holds what it held. It cannot grow when its table of 32768 slots
/// would have to double, which it has to at 24576 names, or at 6554 once it
/// has met many collisions: `HEADER_ROOM` lies below both, so a map with fewer
/// names than that takes the value.
#[verifier::external_body]
pub(crate) fn insert_header(headers: &mut HeaderMap<HeaderValue>, name: &str, value: &str) -> (done:
    bool)
    requires
        is_header_name(name@),
        is_header_value(value@),
    ensures
        header_fields(*final(headers)) == if done {
            added(header_fields(*old(headers)), (name@, value@))
        } else {
            header_fields(*old(headers))
        },
        has_room(header_fields(*old(headers)), 1) ==> done,
{
    match (HeaderName::from_str(name), HeaderValue::from_str(value)) {
        (Ok(name), Ok(value)) => headers.try_insert(name, value).is_ok(),
        _ => false,
    }
}

} // verus!
