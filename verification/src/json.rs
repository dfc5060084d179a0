//! The library's own model of a JSON document.
//!
//! A value is held as plain data: booleans, 64-bit integers, strings,
//! arrays and objects.  A number that does not fit a signed 64-bit
//! integer (a fraction, an exponent, a larger magnitude) is carried as
//! its literal text and is not a numeric source for coercion.  At the
//! specification level a document is a `JsonV`, built from sequences
//! alone, so that two documents are equal exactly when their contents
//! are.

use vstd::prelude::*;

verus! {

broadcast use vstd::seq::group_seq_axioms, vstd::std_specs::vec::group_vec_axioms;

/// An executable JSON value.
pub enum Json {
    Null,
    Bool(bool),
    Int(i64),
    /// A number the model does not hold exactly, as its literal text.
    NumText(String),
    Str(String),
    Arr(Vec<Json>),
    Obj(Vec<(String, Json)>),
}

/// The mathematical model of a JSON value.
pub enum JsonV {
    Null,
    Bool(bool),
    Int(i64),
    NumText(Seq<char>),
    Str(Seq<char>),
    Arr(Seq<JsonV>),
    Obj(Seq<(Seq<char>, JsonV)>),
}

/// The model of an executable JSON value.
pub open spec fn jv_of(j: Json) -> JsonV
    decreases j via jv_of_decreases
{
    match j {
        Json::Null => JsonV::Null,
        Json::Bool(b) => JsonV::Bool(b),
        Json::Int(i) => JsonV::Int(i),
        Json::NumText(s) => JsonV::NumText(s@),
        Json::Str(s) => JsonV::Str(s@),
        Json::Arr(a) => JsonV::Arr(jv_list(a@)),
        Json::Obj(o) => JsonV::Obj(jv_entries(o@)),
    }
}

/// The models of an array's elements, in order.
pub open spec fn jv_list(a: Seq<Json>) -> Seq<JsonV>
    decreases a via jv_list_decreases
{
    if a.len() == 0 {
        Seq::empty()
    } else {
        seq![jv_of(a[0])] + jv_list(a.subrange(1, a.len() as int))
    }
}

/// The models of an object's entries, in order.
pub open spec fn jv_entries(o: Seq<(String, Json)>) -> Seq<(Seq<char>, JsonV)>
    decreases o via jv_entries_decreases
{
    if o.len() == 0 {
        Seq::empty()
    } else {
        seq![(o[0].0@, jv_of(o[0].1))] + jv_entries(o.subrange(1, o.len() as int))
    }
}

#[via_fn]
proof fn jv_of_decreases(j: Json) {
    match j {
        Json::Arr(a) => {
            assert(decreases_to!(j => a));
            assert(decreases_to!(a => a@));
        },
        Json::Obj(o) => {
            assert(decreases_to!(j => o));
            assert(decreases_to!(o => o@));
        },
        _ => {},
    }
}

#[via_fn]
proof fn jv_list_decreases(a: Seq<Json>) {
    if a.len() > 0 {
        assert(decreases_to!(a => a[0]));
        assert(decreases_to!(a => a.subrange(1, a.len() as int)));
    }
}

#[via_fn]
proof fn jv_entries_decreases(o: Seq<(String, Json)>) {
    if o.len() > 0 {
        assert(decreases_to!(o => o[0]));
        assert(decreases_to!(o => o[0].1));
        assert(decreases_to!(o => o.subrange(1, o.len() as int)));
    }
}

/// Index-wise reading of `jv_list`.
pub proof fn lemma_jv_list_index(a: Seq<Json>)
    ensures
        jv_list(a).len() == a.len(),
        forall|i: int| 0 <= i < a.len() ==> jv_list(a)[i] == jv_of(a[i]),
    decreases a.len(),
{
    if a.len() > 0 {
        lemma_jv_list_index(a.subrange(1, a.len() as int));
    }
}

/// Index-wise reading of `jv_entries`.
pub proof fn lemma_jv_entries_index(o: Seq<(String, Json)>)
    ensures
        jv_entries(o).len() == o.len(),
        forall|i: int| 0 <= i < o.len() ==> jv_entries(o)[i] == (o[i].0@, jv_of(o[i].1)),
    decreases o.len(),
{
    if o.len() > 0 {
        lemma_jv_entries_index(o.subrange(1, o.len() as int));
    }
}

impl View for Json {
    type V = JsonV;

    open spec fn view(&self) -> JsonV {
        jv_of(*self)
    }
}


/// The value at `key` in an object's entry list: the first entry whose
/// name matches, or nothing.
pub open spec fn entries_get(entries: Seq<(Seq<char>, JsonV)>, key: Seq<char>) -> Option<JsonV>
    decreases entries.len(),
{
    if entries.len() == 0 {
        None
    } else if entries[0].0 == key {
        Some(entries[0].1)
    } else {
        entries_get(entries.skip(1), key)
    }
}

/// The member of an object at `key`: nothing when the value is not an
/// object or has no such member.
pub open spec fn jv_get(v: JsonV, key: Seq<char>) -> Option<JsonV> {
    match v {
        JsonV::Obj(entries) => entries_get(entries, key),
        _ => None,
    }
}

impl Json {
    /// Looks up a member of an object value by name.
    pub fn get<'a>(&'a self, key: &str) -> (r: Option<&'a Json>)
        ensures
            match r {
                Some(m) => jv_get(self@, key@) == Some(m@),
                None => jv_get(self@, key@) is None,
            },
    {
        match self {
            Json::Obj(entries) => {
                let ghost es = jv_entries(entries@);
                proof {
                    lemma_jv_entries_index(entries@);
                    assert(es.skip(0) =~= es);
                }
                let n = entries.len();
                for i in 0..n
                    invariant
                        n == entries.len(),
                        es == jv_entries(entries@),
                        es.len() == n,
                        forall|k: int| 0 <= k < n ==> es[k] == (entries@[k].0@, jv_of(entries@[k].1)),
                        self@ == JsonV::Obj(es),
                        entries_get(es, key@) == entries_get(es.skip(i as int), key@),
                {
                    proof {
                        assert(es.skip(i as int)[0] == es[i as int]);
                        assert(es.skip(i as int).skip(1) =~= es.skip(i + 1));
                    }
                    if crate::names::str_eq(entries[i].0.as_str(), key) {
                        return Some(&entries[i].1);
                    }
                }
                proof {
                    assert(es.skip(n as int) =~= Seq::<(Seq<char>, JsonV)>::empty());
                }
                None
            },
            _ => None,
        }
    }
}


/// A decimal digit as a character.
pub open spec fn digit_char(n: int) -> char {
    if n == 0 { '0' }
    else if n == 1 { '1' }
    else if n == 2 { '2' }
    else if n == 3 { '3' }
    else if n == 4 { '4' }
    else if n == 5 { '5' }
    else if n == 6 { '6' }
    else if n == 7 { '7' }
    else if n == 8 { '8' }
    else if n == 9 { '9' }
    else { 'x' }
}

/// A hexadecimal digit as a lower-case character.
pub open spec fn hex_char(n: int) -> char {
    if n < 10 { digit_char(n) }
    else if n == 10 { 'a' }
    else if n == 11 { 'b' }
    else if n == 12 { 'c' }
    else if n == 13 { 'd' }
    else if n == 14 { 'e' }
    else if n == 15 { 'f' }
    else { 'x' }
}

/// The decimal digits of a natural number, most significant first.
pub open spec fn dec_digits(n: nat) -> Seq<char>
    decreases n,
{
    if n < 10 {
        seq![digit_char(n as int)]
    } else {
        dec_digits(n / 10) + seq![digit_char((n % 10) as int)]
    }
}

/// The decimal rendering of an integer.
pub open spec fn int_text(i: int) -> Seq<char> {
    if i < 0 {
        seq!['-'] + dec_digits((-i) as nat)
    } else {
        dec_digits(i as nat)
    }
}

/// The JSON escape of one character inside a string literal.
pub open spec fn esc_char(c: char) -> Seq<char> {
    if c == '"' { seq!['\\', '"'] }
    else if c == '\\' { seq!['\\', '\\'] }
    else if c == '\n' { seq!['\\', 'n'] }
    else if c == '\r' { seq!['\\', 'r'] }
    else if c == '\t' { seq!['\\', 't'] }
    else if (c as int) < 32 {
        seq!['\\', 'u', '0', '0', hex_char(c as int / 16), hex_char(c as int % 16)]
    } else {
        seq![c]
    }
}

/// The JSON escape of a whole string body.
pub open spec fn esc_str(s: Seq<char>) -> Seq<char>
    decreases s.len(),
{
    if s.len() == 0 {
        Seq::empty()
    } else {
        esc_char(s[0]) + esc_str(s.skip(1))
    }
}

/// The serialized text of a JSON value.
pub open spec fn jv_text(v: JsonV) -> Seq<char>
    decreases v via jv_text_decreases
{
    match v {
        JsonV::Null => "null"@,
        JsonV::Bool(b) => if b { "true"@ } else { "false"@ },
        JsonV::Int(i) => int_text(i as int),
        JsonV::NumText(s) => s,
        JsonV::Str(s) => seq!['"'] + esc_str(s) + seq!['"'],
        JsonV::Arr(a) => seq!['['] + jv_list_text(a) + seq![']'],
        JsonV::Obj(o) => seq!['{'] + jv_obj_text(o) + seq!['}'],
    }
}

/// The comma-separated texts of an array's elements.
pub open spec fn jv_list_text(a: Seq<JsonV>) -> Seq<char>
    decreases a via jv_list_text_decreases
{
    if a.len() == 0 {
        Seq::empty()
    } else {
        jv_text(a[0]) + jv_list_tail(a.subrange(1, a.len() as int))
    }
}

/// The remaining elements of an array, each preceded by a comma.
pub open spec fn jv_list_tail(a: Seq<JsonV>) -> Seq<char>
    decreases a via jv_list_tail_decreases
{
    if a.len() == 0 {
        Seq::empty()
    } else {
        seq![','] + jv_text(a[0]) + jv_list_tail(a.subrange(1, a.len() as int))
    }
}

/// The text of one object entry: a quoted name, a colon, the value.
pub open spec fn jv_entry_text(e: (Seq<char>, JsonV)) -> Seq<char>
    decreases e via jv_entry_text_decreases
{
    seq!['"'] + esc_str(e.0) + seq!['"', ':'] + jv_text(e.1)
}

/// The comma-separated texts of an object's entries.
pub open spec fn jv_obj_text(o: Seq<(Seq<char>, JsonV)>) -> Seq<char>
    decreases o via jv_obj_text_decreases
{
    if o.len() == 0 {
        Seq::empty()
    } else {
        jv_entry_text(o[0]) + jv_obj_tail(o.subrange(1, o.len() as int))
    }
}

/// The remaining entries of an object, each preceded by a comma.
pub open spec fn jv_obj_tail(o: Seq<(Seq<char>, JsonV)>) -> Seq<char>
    decreases o via jv_obj_tail_decreases
{
    if o.len() == 0 {
        Seq::empty()
    } else {
        seq![','] + jv_entry_text(o[0]) + jv_obj_tail(o.subrange(1, o.len() as int))
    }
}

#[via_fn]
proof fn jv_text_decreases(v: JsonV) {
    match v {
        JsonV::Arr(a) => {
            assert(decreases_to!(v => a));
        },
        JsonV::Obj(o) => {
            assert(decreases_to!(v => o));
        },
        _ => {},
    }
}

#[via_fn]
proof fn jv_list_text_decreases(a: Seq<JsonV>) {
    if a.len() > 0 {
        assert(decreases_to!(a => a[0]));
        assert(decreases_to!(a => a.subrange(1, a.len() as int)));
    }
}

#[via_fn]
proof fn jv_list_tail_decreases(a: Seq<JsonV>) {
    if a.len() > 0 {
        assert(decreases_to!(a => a[0]));
        assert(decreases_to!(a => a.subrange(1, a.len() as int)));
    }
}

#[via_fn]
proof fn jv_entry_text_decreases(e: (Seq<char>, JsonV)) {
    assert(decreases_to!(e => e.1));
}

#[via_fn]
proof fn jv_obj_text_decreases(o: Seq<(Seq<char>, JsonV)>) {
    if o.len() > 0 {
        assert(decreases_to!(o => o[0]));
        assert(decreases_to!(o => o.subrange(1, o.len() as int)));
    }
}

#[via_fn]
proof fn jv_obj_tail_decreases(o: Seq<(Seq<char>, JsonV)>) {
    if o.len() > 0 {
        assert(decreases_to!(o => o[0]));
        assert(decreases_to!(o => o.subrange(1, o.len() as int)));
    }
}


/// The decimal digit `d` as a string slice.
fn digit_str(d: u64) -> (r: &'static str)
    requires
        d < 10,
    ensures
        r@ == seq![digit_char(d as int)],
{
    proof {
        reveal_strlit("0");
        reveal_strlit("1");
        reveal_strlit("2");
        reveal_strlit("3");
        reveal_strlit("4");
        reveal_strlit("5");
        reveal_strlit("6");
        reveal_strlit("7");
        reveal_strlit("8");
        reveal_strlit("9");
    }
    match d {
        0 => "0",
        1 => "1",
        2 => "2",
        3 => "3",
        4 => "4",
        5 => "5",
        6 => "6",
        7 => "7",
        8 => "8",
        9 => "9",
        _ => {
            proof {
                assert(false);
            }
            "0"
        },
    }
}

/// Appends the hexadecimal digit `n`.
fn push_hex(out: &mut String, n: u64)
    requires
        n < 16,
    ensures
        final(out)@ == old(out)@ + seq![hex_char(n as int)],
{
    if n < 10 {
        out.append(digit_str(n));
    } else {
        proof {
            reveal_strlit("a");
            reveal_strlit("b");
            reveal_strlit("c");
            reveal_strlit("d");
            reveal_strlit("e");
            reveal_strlit("f");
        }
        match n {
            10 => out.append("a"),
            11 => out.append("b"),
            12 => out.append("c"),
            13 => out.append("d"),
            14 => out.append("e"),
            15 => out.append("f"),
            _ => {
                proof {
                    assert(false);
                }
            },
        }
    }
}

/// Appends the decimal digits of `n`.
fn append_dec(out: &mut String, n: u64)
    ensures
        final(out)@ == old(out)@ + dec_digits(n as nat),
    decreases n,
{
    if n < 10 {
        out.append(digit_str(n));
    } else {
        append_dec(out, n / 10);
        out.append(digit_str(n % 10));
    }
}

/// Appends the decimal rendering of a signed integer.
pub fn append_int(out: &mut String, i: i64)
    ensures
        final(out)@ == old(out)@ + int_text(i as int),
{
    if i < 0 {
        proof {
            reveal_strlit("-");
        }
        out.append("-");
        let mag: u64 = ((-(i + 1)) as u64) + 1;
        proof {
            assert(mag as int == -(i as int));
        }
        append_dec(out, mag);
    } else {
        append_dec(out, i as u64);
    }
}

/// Appends the JSON escape of the string body `s`.
fn append_escaped(out: &mut String, s: &str)
    ensures
        final(out)@ == old(out)@ + esc_str(s@),
{
    let n = s.unicode_len();
    proof {
        assert(s@.skip(0) =~= s@);
    }
    for i in 0..n
        invariant
            n == s@.len(),
            old(out)@ + esc_str(s@) == out@ + esc_str(s@.skip(i as int)),
    {
        let c = s.get_char(i);
        proof {
            assert(s@.skip(i as int)[0] == s@[i as int]);
            assert(s@.skip(i as int).skip(1) =~= s@.skip(i + 1));
            reveal_strlit("\\\"");
            reveal_strlit("\\\\");
            reveal_strlit("\\n");
            reveal_strlit("\\r");
            reveal_strlit("\\t");
            reveal_strlit("\\u00");
        }
        if c == '"' {
            out.append("\\\"");
        } else if c == '\\' {
            out.append("\\\\");
        } else if c == '\n' {
            out.append("\\n");
        } else if c == '\r' {
            out.append("\\r");
        } else if c == '\t' {
            out.append("\\t");
        } else if (c as u32) < 32 {
            out.append("\\u00");
            push_hex(out, ((c as u32) / 16) as u64);
            push_hex(out, ((c as u32) % 16) as u64);
        } else {
            let piece = s.substring_char(i, i + 1);
            proof {
                assert(piece@ =~= seq![s@[i as int]]);
            }
            out.append(piece);
        }
    }
    proof {
        assert(s@.skip(n as int) =~= Seq::<char>::empty());
        assert(out@ =~= old(out)@ + esc_str(s@));
    }
}

impl Json {
    /// Serializes the value back to JSON text.
    #[verifier::loop_isolation(false)]
    #[verifier::rlimit(100)]
    pub fn to_text(&self) -> (r: String)
        ensures
            r@ == jv_text(self@),
        decreases self,
    {
        match self {
            Json::Null => "null".to_owned(),
            Json::Bool(b) => if *b {
                "true".to_owned()
            } else {
                "false".to_owned()
            },
            Json::Int(i) => {
                let mut out = String::new();
                append_int(&mut out, *i);
                proof {
                    assert(out@ =~= int_text(*i as int));
                }
                out
            },
            Json::NumText(s) => s.clone(),
            Json::Str(s) => {
                proof {
                    reveal_strlit("\"");
                }
                let mut out = String::from_str("\"");
                append_escaped(&mut out, s.as_str());
                out.append("\"");
                proof {
                    assert(out@ =~= seq!['"'] + esc_str(s@) + seq!['"']);
                }
                out
            },
            Json::Arr(a) => {
                let ghost es = jv_list(a@);
                proof {
                    lemma_jv_list_index(a@);
                    reveal_strlit("[");
                    reveal_strlit("]");
                    reveal_strlit(",");
                }
                let mut out = String::from_str("[");
                let n = a.len();
                if n > 0 {
                    proof {
                        assert(decreases_to!(*self => *a));
                        assert(decreases_to!(*a => a@));
                        assert(decreases_to!(a@ => a@[0]));
                    }
                    let t0 = a[0].to_text();
                    out.append(t0.as_str());
                    proof {
                        assert(es.skip(1) =~= es.subrange(1, es.len() as int));
                        assert(out@ + jv_list_tail(es.skip(1)) =~= seq!['['] + jv_list_text(es));
                    }
                    for i in 1..n
                        invariant
                            n == a.len(),
                            es == jv_list(a@),
                            es.len() == n,
                            forall|k: int| 0 <= k < n ==> es[k] == jv_of(a@[k]),
                            out@ + jv_list_tail(es.skip(i as int)) == seq!['['] + jv_list_text(es),
                    {
                        proof {
                            assert(es.skip(i as int)[0] == es[i as int]);
                            assert(es.skip(i as int).subrange(1, es.skip(i as int).len() as int) =~= es.skip(i + 1));
                            assert(decreases_to!(*self => *a));
                            assert(decreases_to!(*a => a@));
                            assert(decreases_to!(a@ => a@[i as int]));
                            reveal_strlit(",");
                        }
                        out.append(",");
                        let t = a[i].to_text();
                        out.append(t.as_str());
                        proof {
                            assert(out@ + jv_list_tail(es.skip(i as int + 1)) =~= seq!['['] + jv_list_text(es));
                        }
                    }
                    proof {
                        assert(es.skip(n as int) =~= Seq::<JsonV>::empty());
                    }
                }
                out.append("]");
                proof {
                    assert(out@ =~= jv_text(self@));
                }
                out
            },
            Json::Obj(o) => {
                let ghost es = jv_entries(o@);
                proof {
                    lemma_jv_entries_index(o@);
                    reveal_strlit("{");
                    reveal_strlit("}");
                    reveal_strlit(",");
                    reveal_strlit("\"");
                    reveal_strlit("\":");
                }
                let mut out = String::from_str("{");
                let n = o.len();
                if n > 0 {
                    proof {
                        assert(decreases_to!(*self => *o));
                        assert(decreases_to!(*o => o@));
                        assert(decreases_to!(o@ => o@[0]));
                        assert(decreases_to!(o@[0] => o@[0].1));
                    }
                    out.append("\"");
                    append_escaped(&mut out, o[0].0.as_str());
                    out.append("\":");
                    let t0 = o[0].1.to_text();
                    out.append(t0.as_str());
                    proof {
                        assert(es.skip(1) =~= es.subrange(1, es.len() as int));
                        assert(out@ + jv_obj_tail(es.skip(1)) =~= seq!['{'] + jv_obj_text(es));
                    }
                    for i in 1..n
                        invariant
                            n == o.len(),
                            es == jv_entries(o@),
                            es.len() == n,
                            forall|k: int| 0 <= k < n ==> es[k] == (o@[k].0@, jv_of(o@[k].1)),
                            out@ + jv_obj_tail(es.skip(i as int)) == seq!['{'] + jv_obj_text(es),
                    {
                        proof {
                            assert(es.skip(i as int)[0] == es[i as int]);
                            assert(es.skip(i as int).subrange(1, es.skip(i as int).len() as int) =~= es.skip(i + 1));
                            assert(decreases_to!(*self => *o));
                            assert(decreases_to!(*o => o@));
                            assert(decreases_to!(o@ => o@[i as int]));
                            assert(decreases_to!(o@[i as int] => o@[i as int].1));
                            reveal_strlit(",");
                            reveal_strlit("\"");
                            reveal_strlit("\":");
                        }
                        out.append(",");
                        out.append("\"");
                        append_escaped(&mut out, o[i].0.as_str());
                        out.append("\":");
                        let t = o[i].1.to_text();
                        out.append(t.as_str());
                        proof {
                            assert(jv_entry_text(es[i as int]) == seq!['"'] + esc_str(o@[i as int].0@) + seq!['"', ':'] + jv_text(jv_of(o@[i as int].1)));
                            assert(out@ + jv_obj_tail(es.skip(i as int + 1)) =~= seq!['{'] + jv_obj_text(es));
                        }
                    }
                    proof {
                        assert(es.skip(n as int) =~= Seq::<(Seq<char>, JsonV)>::empty());
                    }
                }
                out.append("}");
                proof {
                    assert(out@ =~= jv_text(self@));
                }
                out
            },
        }
    }
}


impl Json {
    /// Takes the member at `key` out of an object value, consuming it.
    #[verifier::loop_isolation(false)]
    pub fn into_member(self, key: &str) -> (r: Option<Json>)
        ensures
            match r {
                Some(m) => jv_get(self@, key@) == Some(m@),
                None => jv_get(self@, key@) is None,
            },
    {
        match self {
            Json::Obj(mut entries) => {
                let ghost es = jv_entries(entries@);
                proof {
                    lemma_jv_entries_index(entries@);
                    assert(es.skip(0) =~= es);
                }
                let n = entries.len();
                for i in 0..n
                    invariant
                        n == entries.len(),
                        es == jv_entries(entries@),
                        es.len() == n,
                        forall|k: int| 0 <= k < n ==> es[k] == (entries@[k].0@, jv_of(entries@[k].1)),
                        entries_get(es, key@) == entries_get(es.skip(i as int), key@),
                {
                    proof {
                        assert(es.skip(i as int)[0] == es[i as int]);
                        assert(es.skip(i as int).skip(1) =~= es.skip(i + 1));
                    }
                    if crate::names::str_eq(entries[i].0.as_str(), key) {
                        let pair = entries.remove(i);
                        return Some(pair.1);
                    }
                }
                proof {
                    assert(es.skip(n as int) =~= Seq::<(Seq<char>, JsonV)>::empty());
                }
                None
            },
            _ => None,
        }
    }
}

} // verus!
