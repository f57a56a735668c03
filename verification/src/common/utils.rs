use vstd::prelude::*;

use crate::data::error::{DataPipeError, DataPipeResult};
use crate::data::messaging::data_pipe_message::DataPipeMessage;
use crate::data::messaging::data_pipe_message_type::DataPipeMessageType;
use vstd::string::StrSliceExecFns;

verus! {

broadcast use vstd::string::group_string_axioms;

/// A character that a parameter name may hold: anything but `=` and `#`.
pub open spec fn name_char(c: char) -> bool {
    c != '=' && c != '#'
}

/// A character that a parameter value may hold: anything but `&` and `#`.
pub open spec fn value_char(c: char) -> bool {
    c != '&' && c != '#'
}

/// The end of the run of name characters of `s` that starts at `j`.
pub open spec fn name_end(s: Seq<char>, j: int) -> int
    decreases s.len() - j,
{
    if j < 0 || j >= s.len() || !name_char(s[j]) {
        j
    } else {
        name_end(s, j + 1)
    }
}

/// The end of the run of value characters of `s` that starts at `j`.
pub open spec fn value_end(s: Seq<char>, j: int) -> int
    decreases s.len() - j,
{
    if j < 0 || j >= s.len() || !value_char(s[j]) {
        j
    } else {
        value_end(s, j + 1)
    }
}

/// The run of value characters from `j` stays within `s` and is maximal.
pub proof fn lemma_value_end_bounds(s: Seq<char>, j: int)
    requires
        0 <= j <= s.len(),
    ensures
        j <= value_end(s, j) <= s.len(),
        forall|x: int| j <= x < value_end(s, j) ==> value_char(#[trigger] s[x]),
        value_end(s, j) < s.len() ==> !value_char(s[value_end(s, j)]),
    decreases s.len() - j,
{
    if j < s.len() && value_char(s[j]) {
        lemma_value_end_bounds(s, j + 1);
    }
}

/// Where the pattern `[?&]([^=#]+)=([^&#]*)` matches `s` starting at `i`:
/// the index of the `=` and the end of the value.
pub open spec fn match_at(s: Seq<char>, i: int) -> Option<(int, int)> {
    if 0 <= i < s.len() && (s[i] == '?' || s[i] == '&') {
        let k = name_end(s, i + 1);
        if k > i + 1 && k < s.len() && s[k] == '=' {
            Some((k, value_end(s, k + 1)))
        } else {
            None
        }
    } else {
        None
    }
}

/// The (name, value) pairs of the query from position `i` on, as successive
/// non-overlapping leftmost matches of `[?&]([^=#]+)=([^&#]*)` give them.
pub open spec fn query_pairs_from(s: Seq<char>, i: int) -> Seq<(Seq<char>, Seq<char>)>
    decreases s.len() - i,
{
    if i < 0 || i >= s.len() {
        Seq::empty()
    } else {
        match match_at(s, i) {
            Some((k, v)) => {
                proof {
                    lemma_value_end_bounds(s, k + 1);
                }
                seq![(s.subrange(i + 1, k), s.subrange(k + 1, v))] + query_pairs_from(s, v)
            },
            None => query_pairs_from(s, i + 1),
        }
    }
}

/// The value of the first pair named `name`.
pub open spec fn first_value(pairs: Seq<(Seq<char>, Seq<char>)>, name: Seq<char>) -> Option<Seq<char>>
    decreases pairs.len(),
{
    if pairs.len() == 0 {
        None
    } else if pairs[0].0 == name {
        Some(pairs[0].1)
    } else {
        first_value(pairs.drop_first(), name)
    }
}

/// The value of parameter `name` in `query`, as the first matching pair gives it.
pub open spec fn parameter_value(query: Seq<char>, name: Seq<char>) -> Option<Seq<char>> {
    first_value(query_pairs_from(query, 0), name)
}

/// The characters of `s`.
fn chars_of(s: &str) -> (v: Vec<char>)
    ensures
        v@ == s@,
{
    let mut v: Vec<char> = Vec::new();
    let ghost all = s@;
    for c in it: s.chars()
        invariant
            it.seq() == all,
            v@.len() == it.index(),
            v@ == all.take(it.index()),
    {
        v.push(c);
        assert(all.take(it.index() + 1) =~= all.take(it.index()).push(c));
    }
    assert(v@ =~= all);
    v
}

/// The end of the run of name characters of `s` that starts at `j`.
fn name_end_exec(s: &Vec<char>, j: usize) -> (e: usize)
    requires
        j <= s@.len(),
    ensures
        e == name_end(s@, j as int),
{
    let mut e = j;
    while e < s.len() && s[e] != '=' && s[e] != '#'
        invariant
            j <= e <= s@.len(),
            name_end(s@, j as int) == name_end(s@, e as int),
        decreases s@.len() - e,
    {
        e = e + 1;
    }
    e
}

/// The end of the run of value characters of `s` that starts at `j`.
fn value_end_exec(s: &Vec<char>, j: usize) -> (e: usize)
    requires
        j <= s@.len(),
    ensures
        e == value_end(s@, j as int),
{
    let mut e = j;
    while e < s.len() && s[e] != '&' && s[e] != '#'
        invariant
            j <= e <= s@.len(),
            value_end(s@, j as int) == value_end(s@, e as int),
        decreases s@.len() - e,
    {
        e = e + 1;
    }
    e
}

/// Where the parameter pattern matches `s` starting at `i`.
fn match_at_exec(s: &Vec<char>, i: usize) -> (r: Option<(usize, usize)>)
    requires
        i < s@.len(),
    ensures
        match match_at(s@, i as int) {
            Some((k, v)) => r matches Some((k2, v2)) && k2 == k && v2 == v,
            None => r is None,
        },
{
    let len = s.len();
    if s[i] != '?' && s[i] != '&' {
        return None;
    }
    let k = name_end_exec(s, i + 1);
    if k > i + 1 && k < s.len() && s[k] == '=' {
        let v = value_end_exec(s, k + 1);
        Some((k, v))
    } else {
        None
    }
}

/// Whether `s[from..to]` spells `name`.
fn range_equals(s: &Vec<char>, from: usize, to: usize, name: &Vec<char>) -> (b: bool)
    requires
        from <= to <= s@.len(),
    ensures
        b == (s@.subrange(from as int, to as int) == name@),
{
    if to - from != name.len() {
        return false;
    }
    let mut x: usize = 0;
    while x < name.len()
        invariant
            to - from == name@.len(),
            from <= to <= s@.len(),
            x <= name@.len(),
            forall|y: int| 0 <= y < x ==> s@[from + y] == name@[y],
        decreases name@.len() - x,
    {
        if s[from + x] != name[x] {
            assert(s@.subrange(from as int, to as int)[x as int] != name@[x as int]);
            return false;
        }
        x = x + 1;
    }
    assert(s@.subrange(from as int, to as int) =~= name@);
    true
}

/// The value of query parameter `name_of_parameter`: the first
/// `name=value` pair with that name, introduced by `?` or `&`, as the
/// pattern `[?&]([^=#]+)=([^&#]*)` finds them from left to right. An empty
/// value and a missing parameter are both errors.
pub fn get_parameter_from_query(query: &str, name_of_parameter: &str) -> (r: DataPipeResult<String>)
    ensures
        match parameter_value(query@, name_of_parameter@) {
            None => r matches Err(DataPipeError::ClientIdentificationError(m))
                && m@ == "Parameter '"@ + name_of_parameter@ + "' not found"@,
            Some(v) => if v.len() == 0 {
                r matches Err(DataPipeError::ClientIdentificationError(m))
                    && m@ == "Parameter client id is empty"@
            } else {
                r matches Ok(value) && value@ == v
            },
        },
{
    let s = chars_of(query);
    let name = chars_of(name_of_parameter);
    let n = s.len();
    let mut i: usize = 0;
    while i < n
        invariant
            n == s@.len(),
            s@ == query@,
            name@ == name_of_parameter@,
            i <= n,
            parameter_value(query@, name_of_parameter@) == first_value(query_pairs_from(s@, i as int), name@),
        decreases n - i,
    {
        let ghost pairs = query_pairs_from(s@, i as int);
        match match_at_exec(&s, i) {
            Some((k, v)) => {
                proof {
                    lemma_value_end_bounds(s@, k + 1);
                    let p = (s@.subrange(i + 1, k as int), s@.subrange(k + 1, v as int));
                    assert(pairs == seq![p] + query_pairs_from(s@, v as int));
                    assert(pairs[0] == p);
                    assert(pairs.drop_first() =~= query_pairs_from(s@, v as int));
                }
                if range_equals(&s, i + 1, k, &name) {
                    if v == k + 1 {
                        return Err(DataPipeError::ClientIdentificationError(
                            String::from_str("Parameter client id is empty"),
                        ));
                    }
                    let value = query.substring_char(k + 1, v).to_owned();
                    return Ok(value);
                }
                i = v;
            },
            None => {
                i = i + 1;
            },
        }
    }
    proof {
        assert(query_pairs_from(s@, i as int) == Seq::<(Seq<char>, Seq<char>)>::empty());
    }
    let mut message = String::from_str("Parameter '");
    message.append(name_of_parameter);
    message.append("' not found");
    Err(DataPipeError::ClientIdentificationError(message))
}


/// `name_end` from `j` is `k` where `s[j..k]` holds name characters only and
/// the run stops at `k`.
proof fn lemma_name_end_at(s: Seq<char>, j: int, k: int)
    requires
        0 <= j <= k <= s.len(),
        forall|x: int| j <= x < k ==> name_char(#[trigger] s[x]),
        k == s.len() || !name_char(s[k]),
    ensures
        name_end(s, j) == k,
    decreases k - j,
{
    if j < k {
        lemma_name_end_at(s, j + 1, k);
    }
}

/// `value_end` from `j` is `k` where `s[j..k]` holds value characters only
/// and the run stops at `k`.
proof fn lemma_value_end_at(s: Seq<char>, j: int, k: int)
    requires
        0 <= j <= k <= s.len(),
        forall|x: int| j <= x < k ==> value_char(#[trigger] s[x]),
        k == s.len() || !value_char(s[k]),
    ensures
        value_end(s, j) == k,
    decreases k - j,
{
    if j < k {
        lemma_value_end_at(s, j + 1, k);
    }
}

/// A query made of the single pair `?name=value` gives `value` back as the
/// value of `name`, where the name is not empty and holds no `=` or `#`,
/// and the value holds no `&` or `#`.
pub proof fn law_single_parameter_is_read(name: Seq<char>, value: Seq<char>)
    requires
        name.len() > 0,
        forall|x: int| 0 <= x < name.len() ==> name_char(#[trigger] name[x]),
        forall|x: int| 0 <= x < value.len() ==> value_char(#[trigger] value[x]),
    ensures
        parameter_value(seq!['?'] + name + seq!['='] + value, name) == Some(value),
{
    let s = seq!['?'] + name + seq!['='] + value;
    let k: int = name.len() + 1int;
    assert forall|x: int| 1 <= x < k implies name_char(#[trigger] s[x]) by {
        assert(s[x] == name[x - 1]);
    }
    assert(s[k] == '=');
    lemma_name_end_at(s, 1, k);
    assert forall|x: int| k + 1 <= x < s.len() implies value_char(#[trigger] s[x]) by {
        assert(s[x] == value[x - k - 1]);
    }
    lemma_value_end_at(s, k + 1, s.len() as int);
    assert(match_at(s, 0) == Some((k, s.len() as int)));
    assert(s.subrange(1, k) =~= name);
    assert(s.subrange(k + 1, s.len() as int) =~= value);
    let pairs = query_pairs_from(s, 0);
    assert(query_pairs_from(s, s.len() as int) == Seq::<(Seq<char>, Seq<char>)>::empty());
    assert(pairs =~= seq![(name, value)]);
}

/// Every text of a version 4 UUID as `uuid` writes it: 36 lower-case
/// hexadecimal digits and hyphens in the pattern 8-4-4-4-12, with the
/// version digit `4` and a variant digit among `8`, `9`, `a`, `b`.
pub open spec fn is_uuid_v4_text(s: Seq<char>) -> bool {
    &&& s.len() == 36
    &&& forall|x: int|
        0 <= x < 36 ==> if x == 8 || x == 13 || x == 18 || x == 23 {
            #[trigger] s[x] == '-'
        } else {
            ('0' <= s[x] <= '9') || ('a' <= s[x] <= 'f')
        }
    &&& s[14] == '4'
    &&& s[19] == '8' || s[19] == '9' || s[19] == 'a' || s[19] == 'b'
}

/// Calls `rand::fill` on the bytes, which the thread-local generator
/// overwrites; claims that their number is kept, nothing of their values.
#[verifier::external_body]
fn fill_random(bytes: &mut Vec<u8>)
    ensures
        final(bytes)@.len() == old(bytes)@.len(),
{
    rand::fill(bytes.as_mut_slice())
}

/// Calls `uuid::Uuid::new_v4` and writes the UUID with `to_string`; claims
/// the shape that every such text has.
#[verifier::external_body]
fn new_uuid_v4_text() -> (s: String)
    ensures
        is_uuid_v4_text(s@),
{
    uuid::Uuid::new_v4().to_string()
}

/// A message for `client_identifier` with a fresh random UUID as its
/// identifier and 500 random bytes as its data.
pub fn create_random_message(client_identifier: String) -> (m: DataPipeMessage)
    ensures
        m.client_identifier == client_identifier,
        is_uuid_v4_text(m.message_identifier@),
        m.message_type == DataPipeMessageType::Default,
        m.data@.len() == 500,
        m.topic is None,
        m.headers@.len() == 0,
{
    let mut data: Vec<u8> = vec![0u8; 500];
    fill_random(&mut data);
    let uuid_text = new_uuid_v4_text();
    DataPipeMessage::new(
        client_identifier,
        uuid_text,
        DataPipeMessageType::Default,
        data,
        None,
        Vec::new(),
    )
}

} // verus!
