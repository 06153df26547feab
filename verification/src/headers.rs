//! Header lists: which caller-supplied headers can go on the wire, how
//! headers of one name give way to the last of them, and how the headers of
//! a response collapse into one value per name.

use vstd::prelude::*;

verus! {

/// A header list as contracts see it: names and values, in order.
pub type HeaderSeq = Seq<(Seq<char>, Seq<char>)>;

/// The longest header name the wire encoding accepts.
pub const MAX_NAME_LEN: usize = 65535;

/// The characters of an HTTP token: letters, digits and
/// ``! # $ % & ' * + - . ^ _ ` | ~``.
pub open spec fn is_token_char(c: char) -> bool {
    ||| 'a' <= c <= 'z'
    ||| 'A' <= c <= 'Z'
    ||| '0' <= c <= '9'
    ||| c == '!'
    ||| c == '#'
    ||| c == '$'
    ||| c == '%'
    ||| c == '&'
    ||| c == '\''
    ||| c == '*'
    ||| c == '+'
    ||| c == '-'
    ||| c == '.'
    ||| c == '^'
    ||| c == '_'
    ||| c == '`'
    ||| c == '|'
    ||| c == '~'
}

/// A name that can be sent: a non-empty token of at most `MAX_NAME_LEN`
/// characters.
pub open spec fn name_encodable(name: Seq<char>) -> bool {
    &&& 1 <= name.len() <= MAX_NAME_LEN
    &&& forall|i: int| 0 <= i < name.len() ==> is_token_char(#[trigger] name[i])
}

/// The characters a header value may hold: a tab, or anything from the space
/// upwards except DEL.
pub open spec fn is_value_char(c: char) -> bool {
    c == '\t' || (' ' <= c && c != '\x7f')
}

/// A value that can be sent: every character is a value character.
pub open spec fn value_encodable(value: Seq<char>) -> bool {
    forall|i: int| 0 <= i < value.len() ==> is_value_char(#[trigger] value[i])
}

/// A header that can be sent: both its name and its value can.
pub open spec fn encodable(header: (Seq<char>, Seq<char>)) -> bool {
    name_encodable(header.0) && value_encodable(header.1)
}

/// The headers of a list that can be sent, in the order in which they stood.
pub open spec fn sendable(headers: HeaderSeq) -> HeaderSeq {
    headers.filter(|header: (Seq<char>, Seq<char>)| encodable(header))
}

/// Appending one header to a list appends it to the sendable part exactly
/// when it is encodable.
pub proof fn lemma_sendable_push(headers: HeaderSeq, header: (Seq<char>, Seq<char>))
    ensures
        sendable(headers.push(header)) == if encodable(header) {
            sendable(headers).push(header)
        } else {
            sendable(headers)
        },
{
    let extended = headers.push(header);
    assert(extended.drop_last() =~= headers);
    assert(extended.last() == header);
    reveal_with_fuel(Seq::filter, 2);
}

/// Asks `reqwest::header::HeaderName::from_str` whether it accepts a name.
/// It accepts exactly the non-empty names of at most 65535 bytes in which
/// every byte is a token character; such a name is ASCII, so bytes and
/// characters coincide.
#[verifier::external_body]
fn name_accepted(name: &str) -> (accepted: bool)
    ensures
        accepted == name_encodable(name@),
{
    <reqwest::header::HeaderName as std::str::FromStr>::from_str(name).is_ok()
}

/// Asks `reqwest::header::HeaderValue::from_str` whether it accepts a value.
/// It rejects a value exactly when one of its bytes is below 32 and not a
/// tab, or is 127; the bytes of a character beyond ASCII are all above 127.
#[verifier::external_body]
fn value_accepted(value: &str) -> (accepted: bool)
    ensures
        accepted == value_encodable(value@),
{
    reqwest::header::HeaderValue::from_str(value).is_ok()
}

/// Whether a header can be sent as it stands.
pub fn is_encodable(name: &str, value: &str) -> (ok: bool)
    ensures
        ok == encodable((name@, value@)),
{
    name_accepted(name) && value_accepted(value)
}

/// Keeps the headers that can be sent and silently drops the others: one bad
/// header never fails a request.
pub fn encodable_headers(headers: &Vec<(String, String)>) -> (kept: Vec<(String, String)>)
    ensures
        kept.deep_view() == sendable(headers.deep_view()),
{
    let mut kept: Vec<(String, String)> = Vec::new();
    let mut i: usize = 0;
    assert(headers.deep_view().take(0) =~= Seq::empty());
    assert(kept.deep_view() =~= Seq::empty());
    while i < headers.len()
        invariant
            i <= headers.len(),
            kept.deep_view() == sendable(headers.deep_view().take(i as int)),
        decreases headers.len() - i,
    {
        let ghost before = headers.deep_view().take(i as int);
        let ghost after = headers.deep_view().take(i + 1);
        let ghost kept_before = kept.deep_view();
        let ghost header = (headers[i as int].0@, headers[i as int].1@);
        proof {
            assert(after =~= before.push(header));
            lemma_sendable_push(before, header);
        }
        if is_encodable(headers[i].0.as_str(), headers[i].1.as_str()) {
            kept.push((headers[i].0.clone(), headers[i].1.clone()));
            assert(kept.deep_view() =~= kept_before.push(header));
        }
        i += 1;
    }
    assert(headers.deep_view().take(i as int) =~= headers.deep_view());
    kept
}

/// The headers of a response as they come off the wire: a name, and the
/// value where it could be read as text.
pub type RawHeaderSeq = Seq<(Seq<char>, Option<Seq<char>>)>;

/// The text a response header contributes: its value, or nothing where the
/// value could not be read.
pub open spec fn reading(value: Option<Seq<char>>) -> Seq<char> {
    match value {
        Some(text) => text,
        None => Seq::empty(),
    }
}

/// A list without the headers of one name.
pub open spec fn without_name(headers: HeaderSeq, name: Seq<char>) -> HeaderSeq {
    headers.filter(|header: (Seq<char>, Seq<char>)| header.0 != name)
}

/// A response's headers with one value per name: of several headers with
/// one name only the last stays, at the place where it stood.
pub open spec fn collapsed(raw: RawHeaderSeq) -> HeaderSeq
    decreases raw.len(),
{
    if raw.len() == 0 {
        Seq::empty()
    } else {
        let newest = raw.last();
        without_name(collapsed(raw.drop_last()), newest.0).push((newest.0, reading(newest.1)))
    }
}

/// No name occurs twice in a list.
pub open spec fn distinct_names(headers: HeaderSeq) -> bool {
    forall|i: int, j: int|
        0 <= i < j < headers.len() ==> (#[trigger] headers[i]).0 != (#[trigger] headers[j]).0
}

/// The value a list gives a name: that of the last header so named.
pub open spec fn value_of(headers: HeaderSeq, name: Seq<char>) -> Option<Seq<char>>
    decreases headers.len(),
{
    if headers.len() == 0 {
        None
    } else if headers.last().0 == name {
        Some(headers.last().1)
    } else {
        value_of(headers.drop_last(), name)
    }
}

/// The value the wire gives a name: the reading of the last header so named.
pub open spec fn wire_value_of(raw: RawHeaderSeq, name: Seq<char>) -> Option<Seq<char>>
    decreases raw.len(),
{
    if raw.len() == 0 {
        None
    } else if raw.last().0 == name {
        Some(reading(raw.last().1))
    } else {
        wire_value_of(raw.drop_last(), name)
    }
}

/// Taking a name out of a list leaves the other names what they were and
/// the name itself without a value; the order of what stays is kept.
pub proof fn lemma_without_name(headers: HeaderSeq, name: Seq<char>)
    ensures
        value_of(without_name(headers, name), name) is None,
        forall|other: Seq<char>|
            other != name ==> value_of(without_name(headers, name), other) == value_of(
                headers,
                other,
            ),
        distinct_names(headers) ==> distinct_names(without_name(headers, name)),
        forall|i: int|
            0 <= i < without_name(headers, name).len() ==> (#[trigger] without_name(
                headers,
                name,
            )[i]).0 != name,
        forall|i: int|
            0 <= i < without_name(headers, name).len() ==> headers.contains(
                #[trigger] without_name(headers, name)[i],
            ),
    decreases headers.len(),
{
    reveal_with_fuel(Seq::filter, 2);
    let kept = without_name(headers, name);
    if headers.len() > 0 {
        let shorter = headers.drop_last();
        let kept_shorter = without_name(shorter, name);
        lemma_without_name(shorter, name);
        assert forall|i: int| 0 <= i < kept.len() implies headers.contains(#[trigger] kept[i]) by {
            if i < kept_shorter.len() {
                assert(shorter.contains(kept_shorter[i]));
                let k = choose|k: int| 0 <= k < shorter.len() && shorter[k] == kept_shorter[i];
                assert(headers[k] == kept[i]);
            } else {
                assert(headers[headers.len() - 1] == kept[i]);
            }
        }
        assert forall|other: Seq<char>| other != name implies value_of(kept, other) == value_of(
            headers,
            other,
        ) by {
            assert(value_of(kept_shorter, other) == value_of(shorter, other));
            if headers.last().0 != name {
                assert(kept == kept_shorter.push(headers.last()));
                assert(kept.drop_last() =~= kept_shorter);
                assert(kept.last() == headers.last());
                assert(value_of(kept, other) == if headers.last().0 == other {
                    Some(headers.last().1)
                } else {
                    value_of(kept_shorter, other)
                });
            } else {
                assert(kept == kept_shorter);
                assert(value_of(headers, other) == value_of(shorter, other));
            }
        }
        if headers.last().0 != name {
            assert(kept == kept_shorter.push(headers.last()));
            assert(kept.drop_last() =~= kept_shorter);
            if distinct_names(headers) {
                assert forall|i: int, j: int| 0 <= i < j < kept.len() implies (#[trigger] kept[i]).0
                    != (#[trigger] kept[j]).0 by {
                    if j == kept.len() - 1 {
                        assert(shorter.contains(kept_shorter[i]));
                        let k = choose|k: int|
                            0 <= k < shorter.len() && shorter[k] == kept_shorter[i];
                        assert(headers[k].0 != headers[headers.len() - 1].0);
                    }
                }
            }
        }
    }
}

/// Collapsed headers hold no name twice.
pub proof fn lemma_collapsed_distinct(raw: RawHeaderSeq)
    ensures
        distinct_names(collapsed(raw)),
    decreases raw.len(),
{
    if raw.len() > 0 {
        let newest = raw.last();
        let earlier = collapsed(raw.drop_last());
        lemma_collapsed_distinct(raw.drop_last());
        lemma_without_name(earlier, newest.0);
        let kept = without_name(earlier, newest.0);
        let flat = collapsed(raw);
        assert(flat == kept.push((newest.0, reading(newest.1))));
        assert forall|i: int, j: int| 0 <= i < j < flat.len() implies (#[trigger] flat[i]).0 != (
        #[trigger] flat[j]).0 by {
            if j == flat.len() - 1 {
                assert(flat[i] == kept[i]);
            } else {
                assert(flat[i] == kept[i] && flat[j] == kept[j]);
            }
        }
    }
}

/// Last wins: collapsed headers give every name the value that the last
/// header of that name had on the wire.
pub proof fn lemma_collapsed_last_wins(raw: RawHeaderSeq, name: Seq<char>)
    ensures
        value_of(collapsed(raw), name) == wire_value_of(raw, name),
    decreases raw.len(),
{
    if raw.len() > 0 {
        let newest = raw.last();
        let earlier = collapsed(raw.drop_last());
        let kept = without_name(earlier, newest.0);
        let flat = collapsed(raw);
        assert(flat == kept.push((newest.0, reading(newest.1))));
        assert(flat.drop_last() =~= kept);
        if newest.0 != name {
            lemma_without_name(earlier, newest.0);
            lemma_collapsed_last_wins(raw.drop_last(), name);
        }
    }
}

/// A copy of a list without the headers of one name.
fn drop_name(headers: &Vec<(String, String)>, name: &String) -> (kept: Vec<(String, String)>)
    ensures
        kept.deep_view() == without_name(headers.deep_view(), name@),
{
    let mut kept: Vec<(String, String)> = Vec::new();
    let mut i: usize = 0;
    assert(headers.deep_view().take(0) =~= Seq::empty());
    assert(kept.deep_view() =~= Seq::empty());
    while i < headers.len()
        invariant
            i <= headers.len(),
            kept.deep_view() == without_name(headers.deep_view().take(i as int), name@),
        decreases headers.len() - i,
    {
        let ghost before = headers.deep_view().take(i as int);
        let ghost header = (headers[i as int].0@, headers[i as int].1@);
        let ghost kept_before = kept.deep_view();
        proof {
            let after = headers.deep_view().take(i + 1);
            assert(after =~= before.push(header));
            assert(after.drop_last() =~= before);
            reveal_with_fuel(Seq::filter, 2);
        }
        if !(headers[i].0 == *name) {
            kept.push((headers[i].0.clone(), headers[i].1.clone()));
            assert(kept.deep_view() =~= kept_before.push(header));
        }
        i += 1;
    }
    assert(headers.deep_view().take(i as int) =~= headers.deep_view());
    kept
}

/// Collapses the headers of a response into one value per name. Where a
/// name came several times the last value wins; a value that could not be
/// read as text becomes the empty text.
pub fn collapse_headers(raw: &Vec<(String, Option<String>)>) -> (flat: Vec<(String, String)>)
    ensures
        flat.deep_view() == collapsed(raw.deep_view()),
{
    let mut flat: Vec<(String, String)> = Vec::new();
    let mut i: usize = 0;
    assert(raw.deep_view().take(0) =~= Seq::empty());
    assert(flat.deep_view() =~= Seq::empty());
    while i < raw.len()
        invariant
            i <= raw.len(),
            flat.deep_view() == collapsed(raw.deep_view().take(i as int)),
        decreases raw.len() - i,
    {
        let ghost before = raw.deep_view().take(i as int);
        let ghost after = raw.deep_view().take(i + 1);
        proof {
            assert(after.drop_last() =~= before);
            assert(after.last() == raw.deep_view()[i as int]);
        }
        let value = match &raw[i].1 {
            Some(text) => text.clone(),
            None => String::new(),
        };
        let mut kept = drop_name(&flat, &raw[i].0);
        let ghost kept_before = kept.deep_view();
        kept.push((raw[i].0.clone(), value));
        assert(kept.deep_view() =~= kept_before.push((raw[i as int].0@, value@)));
        flat = kept;
        i += 1;
    }
    assert(raw.deep_view().take(i as int) =~= raw.deep_view());
    flat
}

/// Whether two characters are the same but for the case of an ASCII
/// letter.
pub open spec fn alike_chars(left: char, right: char) -> bool {
    ||| left == right
    ||| 'A' <= left <= 'Z' && left as u32 + 32 == right as u32
    ||| 'A' <= right <= 'Z' && right as u32 + 32 == left as u32
}

/// Whether two names are the same header name: the same but for the case
/// of ASCII letters, which the wire does not tell apart.
pub open spec fn alike_names(left: Seq<char>, right: Seq<char>) -> bool {
    &&& left.len() == right.len()
    &&& forall|i: int| 0 <= i < left.len() ==> alike_chars(#[trigger] left[i], right[i])
}

/// Whether a list holds a header of a name, case aside.
pub open spec fn names_header(headers: HeaderSeq, name: Seq<char>) -> bool {
    exists|i: int| 0 <= i < headers.len() && alike_names((#[trigger] headers[i]).0, name)
}

/// A default header put before a list, unless the list holds a header of
/// the same name, which then stands in its place.
pub open spec fn overriding(default: (Seq<char>, Seq<char>), headers: HeaderSeq) -> HeaderSeq {
    if names_header(headers, default.0) {
        headers
    } else {
        seq![default] + headers
    }
}

/// Putting a default before a list that holds no name twice, case aside,
/// gives a list that holds no name twice either.
pub proof fn lemma_overriding_is_unalike(default: (Seq<char>, Seq<char>), headers: HeaderSeq)
    requires
        unalike_names(headers),
    ensures
        unalike_names(overriding(default, headers)),
{
    if !names_header(headers, default.0) {
        let result = overriding(default, headers);
        assert forall|i: int, j: int| 0 <= i < j < result.len() implies !alike_names(
            (#[trigger] result[i]).0,
            (#[trigger] result[j]).0,
        ) by {
            assert(result[j] == headers[j - 1]);
            if i == 0 {
                assert(result[0] == default);
                if alike_names(default.0, headers[j - 1].0) {
                    assert forall|k: int| 0 <= k < default.0.len() implies alike_chars(
                        #[trigger] headers[j - 1].0[k],
                        default.0[k],
                    ) by {
                        assert(alike_chars(default.0[k], headers[j - 1].0[k]));
                    }
                    assert(alike_names(headers[j - 1].0, default.0));
                }
            } else {
                assert(result[i] == headers[i - 1]);
            }
        }
    }
}

/// A default header is never lost without a stand-in: the list that
/// results always holds a header of its name.
pub proof fn lemma_overriding_names_default(
    default: (Seq<char>, Seq<char>),
    headers: HeaderSeq,
)
    ensures
        names_header(overriding(default, headers), default.0),
        names_header(headers, default.0) ==> overriding(default, headers) == headers,
{
    if !names_header(headers, default.0) {
        let result = overriding(default, headers);
        assert(result[0] == default);
        assert(alike_names(result[0].0, default.0));
    }
}

/// A list without the headers of one name, case aside.
pub open spec fn without_alike(headers: HeaderSeq, name: Seq<char>) -> HeaderSeq {
    headers.filter(|header: (Seq<char>, Seq<char>)| !alike_names(header.0, name))
}

/// A list with one header per name, case aside: of several headers of one
/// name only the last stays, as when each in turn is put into a header map.
pub open spec fn unified(headers: HeaderSeq) -> HeaderSeq
    decreases headers.len(),
{
    if headers.len() == 0 {
        Seq::empty()
    } else {
        without_alike(unified(headers.drop_last()), headers.last().0).push(headers.last())
    }
}

/// No two headers of a list have the same name, case aside.
pub open spec fn unalike_names(headers: HeaderSeq) -> bool {
    forall|i: int, j: int|
        0 <= i < j < headers.len() ==> !alike_names(
            (#[trigger] headers[i]).0,
            (#[trigger] headers[j]).0,
        )
}

/// Taking a name out of a list, case aside, leaves no header of that name,
/// only headers of the list, and no two of one name where there were none.
pub proof fn lemma_without_alike(headers: HeaderSeq, name: Seq<char>)
    ensures
        forall|i: int|
            0 <= i < without_alike(headers, name).len() ==> !alike_names(
                (#[trigger] without_alike(headers, name)[i]).0,
                name,
            ),
        forall|i: int|
            0 <= i < without_alike(headers, name).len() ==> headers.contains(
                #[trigger] without_alike(headers, name)[i],
            ),
        unalike_names(headers) ==> unalike_names(without_alike(headers, name)),
    decreases headers.len(),
{
    reveal_with_fuel(Seq::filter, 2);
    let kept = without_alike(headers, name);
    if headers.len() > 0 {
        let shorter = headers.drop_last();
        let kept_shorter = without_alike(shorter, name);
        lemma_without_alike(shorter, name);
        assert forall|i: int| 0 <= i < kept.len() implies headers.contains(#[trigger] kept[i]) by {
            if i < kept_shorter.len() {
                assert(shorter.contains(kept_shorter[i]));
                let k = choose|k: int| 0 <= k < shorter.len() && shorter[k] == kept_shorter[i];
                assert(headers[k] == kept[i]);
            } else {
                assert(headers[headers.len() - 1] == kept[i]);
            }
        }
        if unalike_names(headers) {
            assert forall|i: int, j: int| 0 <= i < j < shorter.len() implies !alike_names(
                (#[trigger] shorter[i]).0,
                (#[trigger] shorter[j]).0,
            ) by {
                assert(shorter[i] == headers[i] && shorter[j] == headers[j]);
            }
            if !alike_names(headers.last().0, name) {
                assert(kept == kept_shorter.push(headers.last()));
                assert forall|i: int, j: int| 0 <= i < j < kept.len() implies !alike_names(
                    (#[trigger] kept[i]).0,
                    (#[trigger] kept[j]).0,
                ) by {
                    assert(kept[i] == kept_shorter[i]);
                    if j == kept.len() - 1 {
                        assert(shorter.contains(kept_shorter[i]));
                        let k = choose|k: int|
                            0 <= k < shorter.len() && shorter[k] == kept_shorter[i];
                        assert(headers[k] == kept[i]);
                        assert(!alike_names(headers[k].0, headers[headers.len() - 1].0));
                    } else {
                        assert(kept[j] == kept_shorter[j]);
                    }
                }
            }
        }
    }
}

/// A unified list holds no two headers of one name, case aside, so it goes
/// into a header map header for header.
pub proof fn lemma_unified_is_unalike(headers: HeaderSeq)
    ensures
        unalike_names(unified(headers)),
    decreases headers.len(),
{
    if headers.len() > 0 {
        let newest = headers.last();
        let earlier = unified(headers.drop_last());
        lemma_unified_is_unalike(headers.drop_last());
        lemma_without_alike(earlier, newest.0);
        let kept = without_alike(earlier, newest.0);
        let result = unified(headers);
        assert(result == kept.push(newest));
        assert forall|i: int, j: int| 0 <= i < j < result.len() implies !alike_names(
            (#[trigger] result[i]).0,
            (#[trigger] result[j]).0,
        ) by {
            assert(result[i] == kept[i]);
            if j < kept.len() {
                assert(result[j] == kept[j]);
            }
        }
    }
}

/// Whether two characters are the same but for the case of an ASCII
/// letter.
pub fn same_char(left: char, right: char) -> (alike: bool)
    ensures
        alike == alike_chars(left, right),
{
    left == right || ('A' <= left && left <= 'Z' && left as u32 + 32 == right as u32) || ('A'
        <= right && right <= 'Z' && right as u32 + 32 == left as u32)
}

/// Whether two names are the same header name.
pub fn same_name(left: &str, right: &str) -> (alike: bool)
    ensures
        alike == alike_names(left@, right@),
{
    let length = left.unicode_len();
    if length != right.unicode_len() {
        return false;
    }
    let mut i: usize = 0;
    while i < length
        invariant
            i <= length,
            length == left@.len(),
            length == right@.len(),
            forall|j: int| 0 <= j < i ==> alike_chars(#[trigger] left@[j], right@[j]),
        decreases length - i,
    {
        if !same_char(left.get_char(i), right.get_char(i)) {
            return false;
        }
        i += 1;
    }
    true
}

/// Whether a list holds a header of a name, case aside.
pub fn has_header(headers: &Vec<(String, String)>, name: &str) -> (found: bool)
    ensures
        found == names_header(headers.deep_view(), name@),
{
    let mut i: usize = 0;
    while i < headers.len()
        invariant
            i <= headers.len(),
            forall|j: int|
                0 <= j < i ==> !alike_names((#[trigger] headers.deep_view()[j]).0, name@),
        decreases headers.len() - i,
    {
        assert(headers.deep_view()[i as int].0 == headers[i as int].0@);
        if same_name(headers[i].0.as_str(), name) {
            return true;
        }
        i += 1;
    }
    false
}

/// A copy of a list without the headers of one name, case aside.
fn drop_alike(headers: &Vec<(String, String)>, name: &String) -> (kept: Vec<(String, String)>)
    ensures
        kept.deep_view() == without_alike(headers.deep_view(), name@),
{
    let mut kept: Vec<(String, String)> = Vec::new();
    let mut i: usize = 0;
    assert(headers.deep_view().take(0) =~= Seq::empty());
    assert(kept.deep_view() =~= Seq::empty());
    while i < headers.len()
        invariant
            i <= headers.len(),
            kept.deep_view() == without_alike(headers.deep_view().take(i as int), name@),
        decreases headers.len() - i,
    {
        let ghost before = headers.deep_view().take(i as int);
        let ghost header = (headers[i as int].0@, headers[i as int].1@);
        let ghost kept_before = kept.deep_view();
        proof {
            let after = headers.deep_view().take(i + 1);
            assert(after =~= before.push(header));
            assert(after.drop_last() =~= before);
            reveal_with_fuel(Seq::filter, 2);
        }
        if !same_name(headers[i].0.as_str(), name.as_str()) {
            kept.push((headers[i].0.clone(), headers[i].1.clone()));
            assert(kept.deep_view() =~= kept_before.push(header));
        }
        i += 1;
    }
    assert(headers.deep_view().take(i as int) =~= headers.deep_view());
    kept
}

/// Leaves one header per name, case aside: of several headers of one name
/// only the last stays.
pub fn unify_headers(headers: &Vec<(String, String)>) -> (result: Vec<(String, String)>)
    ensures
        result.deep_view() == unified(headers.deep_view()),
{
    let mut result: Vec<(String, String)> = Vec::new();
    let mut i: usize = 0;
    assert(headers.deep_view().take(0) =~= Seq::empty());
    assert(result.deep_view() =~= Seq::empty());
    while i < headers.len()
        invariant
            i <= headers.len(),
            result.deep_view() == unified(headers.deep_view().take(i as int)),
        decreases headers.len() - i,
    {
        proof {
            let after = headers.deep_view().take(i + 1);
            assert(after.drop_last() =~= headers.deep_view().take(i as int));
            assert(after.last() == (headers[i as int].0@, headers[i as int].1@));
        }
        let mut kept = drop_alike(&result, &headers[i].0);
        let ghost kept_before = kept.deep_view();
        kept.push((headers[i].0.clone(), headers[i].1.clone()));
        assert(kept.deep_view() =~= kept_before.push((headers[i as int].0@, headers[i as int].1@)));
        result = kept;
        i += 1;
    }
    assert(headers.deep_view().take(i as int) =~= headers.deep_view());
    result
}

} // verus!
