//! A generic JSON value and a parser for it.
//!
//! The external tool prints one JSON document on its standard output. Its
//! schema is loose, so the document is first parsed into the generic [`Json`]
//! value; the typed layer then reads fields out of that value. Numbers are
//! kept as their literal tokens: the callers that care interpret them.

use vstd::prelude::*;

verus! {

/// A generic JSON value. Numbers keep their source token so that no
/// precision is lost and no floating point is needed.
#[derive(Debug)]
pub enum Json {
    Null,
    Bool(bool),
    /// A number, as the literal token from the document (e.g. `-12.5e3`).
    Num(String),
    Str(String),
    Arr(Vec<Json>),
    Obj(Vec<(String, Json)>),
}

/// The mathematical shape of a [`Json`] value: the same tree over sequences.
pub enum JsonV {
    Null,
    Bool(bool),
    Num(Seq<char>),
    Str(Seq<char>),
    Arr(Seq<JsonV>),
    Obj(Seq<(Seq<char>, JsonV)>),
}

broadcast use vstd::std_specs::vec::group_vec_axioms, vstd::seq::group_seq_axioms;

impl Json {
    /// The abstract value of this JSON tree.
    pub open spec fn v(self) -> JsonV
        decreases self,
    {
        match self {
            Json::Null => JsonV::Null,
            Json::Bool(b) => JsonV::Bool(b),
            Json::Num(t) => JsonV::Num(t@),
            Json::Str(s) => JsonV::Str(s@),
            Json::Arr(items) => JsonV::Arr(Json::v_arr(items@)),
            Json::Obj(pairs) => JsonV::Obj(Json::v_obj(pairs@)),
        }
    }

    /// The abstract values of a sequence of JSON trees, in order.
    pub open spec fn v_arr(items: Seq<Json>) -> Seq<JsonV>
        decreases items,
    {
        if items.len() == 0 {
            Seq::empty()
        } else {
            seq![items[0].v()] + Json::v_arr(items.drop_first())
        }
    }

    /// The abstract values of a sequence of JSON object members, in order.
    pub open spec fn v_obj(pairs: Seq<(String, Json)>) -> Seq<(Seq<char>, JsonV)>
        decreases pairs,
    {
        if pairs.len() == 0 {
            Seq::empty()
        } else {
            seq![(pairs[0].0@, pairs[0].1.v())] + Json::v_obj(pairs.drop_first())
        }
    }
}

impl View for Json {
    type V = JsonV;

    open spec fn view(&self) -> JsonV {
        self.v()
    }
}

/// Why a document was rejected: the bytes are not one well-formed JSON
/// document, or the document does not fit the required schema.
#[derive(Debug, Clone, Copy, PartialEq, Eq, Structural)]
pub enum JsonError {
    /// The input is not a well-formed JSON document.
    Syntax,
    /// The document lacks a required field or a field has the wrong shape.
    Schema,
}

/// Whether `c` is JSON whitespace.
pub open spec fn is_ws(c: char) -> bool {
    c == ' ' || c == '\t' || c == '\n' || c == '\r'
}

/// The first index at or after `i` that does not hold whitespace.
pub open spec fn sp_ws(s: Seq<char>, i: int) -> int
    decreases s.len() - i,
        when 0 <= i <= s.len()
{
    if i < s.len() && is_ws(s[i]) {
        sp_ws(s, i + 1)
    } else {
        i
    }
}

/// The first index at or after `i` that does not hold a decimal digit.
pub open spec fn sp_digits_end(s: Seq<char>, i: int) -> int
    decreases s.len() - i,
        when 0 <= i <= s.len()
{
    if i < s.len() && crate::text::is_digit(s[i]) {
        sp_digits_end(s, i + 1)
    } else {
        i
    }
}

proof fn lemma_sp_digits_end_bounds(s: Seq<char>, i: int)
    requires
        0 <= i <= s.len(),
    ensures
        i <= sp_digits_end(s, i) <= s.len(),
    decreases s.len() - i,
{
    if i < s.len() && crate::text::is_digit(s[i]) {
        lemma_sp_digits_end_bounds(s, i + 1);
    }
}

/// Whether `c` is a hexadecimal digit.
pub open spec fn is_hex(c: char) -> bool {
    ('0' <= c && c <= '9') || ('a' <= c && c <= 'f') || ('A' <= c && c <= 'F')
}

/// The value of a hexadecimal digit character.
pub open spec fn hex_val(c: char) -> int {
    if '0' <= c && c <= '9' {
        c as int - '0' as int
    } else if 'a' <= c && c <= 'f' {
        c as int - 'a' as int + 10
    } else {
        c as int - 'A' as int + 10
    }
}

/// The value of the four hexadecimal digits at `i`, if they are there.
pub open spec fn sp_hex4(s: Seq<char>, i: int) -> Option<u32> {
    if i + 4 <= s.len() && is_hex(s[i]) && is_hex(s[i + 1]) && is_hex(s[i + 2]) && is_hex(
        s[i + 3],
    ) {
        Some(
            (hex_val(s[i]) * 0x1000 + hex_val(s[i + 1]) * 0x100 + hex_val(s[i + 2]) * 0x10
                + hex_val(s[i + 3])) as u32,
        )
    } else {
        None
    }
}

/// The character named by a single-character escape, if the escape is known.
pub open spec fn sp_escape_char(e: char) -> Option<char> {
    if e == '"' {
        Some('"')
    } else if e == '\\' {
        Some('\\')
    } else if e == '/' {
        Some('/')
    } else if e == 'b' {
        Some('\u{8}')
    } else if e == 'f' {
        Some('\u{c}')
    } else if e == 'n' {
        Some('\n')
    } else if e == 'r' {
        Some('\r')
    } else if e == 't' {
        Some('\t')
    } else {
        None
    }
}

/// Parses the body of a string literal from `i` (just after the opening
/// quote): the decoded content and the index just after the closing quote.
pub open spec fn sp_string(s: Seq<char>, i: int) -> Option<(Seq<char>, int)>
    decreases s.len() - i,
        when 0 <= i <= s.len()
{
    if i >= s.len() {
        None
    } else {
        let c = s[i];
        if c == '"' {
            Some((Seq::empty(), i + 1))
        } else if c == '\\' {
            if i + 2 > s.len() {
                None
            } else {
                let e = s[i + 1];
                if e == 'u' {
                    match sp_hex4(s, i + 2) {
                        None => None,
                        Some(u1) => if 0xD800 <= u1 < 0xDC00 {
                            // a high surrogate must be followed by an
                            // escaped low surrogate
                            if i + 12 <= s.len() && s[i + 6] == '\\' && s[i + 7] == 'u' {
                                match sp_hex4(s, i + 8) {
                                    None => None,
                                    Some(u2) => if 0xDC00 <= u2 < 0xE000 {
                                        let code = 0x10000 + (u1 - 0xD800) * 0x400 + (u2 - 0xDC00);
                                        match sp_string(s, i + 12) {
                                            None => None,
                                            Some((rest, j)) => Some(
                                                (seq![(code as u32) as char] + rest, j),
                                            ),
                                        }
                                    } else {
                                        None
                                    },
                                }
                            } else {
                                None
                            }
                        } else if 0xDC00 <= u1 < 0xE000 {
                            None
                        } else {
                            match sp_string(s, i + 6) {
                                None => None,
                                Some((rest, j)) => Some((seq![u1 as char] + rest, j)),
                            }
                        },
                    }
                } else {
                    match sp_escape_char(e) {
                        None => None,
                        Some(d) => match sp_string(s, i + 2) {
                            None => None,
                            Some((rest, j)) => Some((seq![d] + rest, j)),
                        },
                    }
                }
            }
        } else if c as u32 >= 0x20 {
            match sp_string(s, i + 1) {
                None => None,
                Some((rest, j)) => Some((seq![c] + rest, j)),
            }
        } else {
            None
        }
    }
}

/// The end of the number token starting at `i`, following the JSON number
/// grammar, or `None` when no number token starts there.
pub open spec fn sp_num_end(s: Seq<char>, i: int) -> Option<int> {
    let j0 = if i < s.len() && s[i] == '-' {
        i + 1
    } else {
        i
    };
    if j0 >= s.len() || !crate::text::is_digit(s[j0]) {
        None
    } else {
        let j1 = if s[j0] == '0' {
            j0 + 1
        } else {
            sp_digits_end(s, j0)
        };
        let j2 = if j1 < s.len() && s[j1] == '.' {
            if j1 + 1 < s.len() && crate::text::is_digit(s[j1 + 1]) {
                sp_digits_end(s, j1 + 1)
            } else {
                -1
            }
        } else {
            j1
        };
        if j2 < 0 {
            None
        } else {
            if j2 < s.len() && (s[j2] == 'e' || s[j2] == 'E') {
                let j3 = if j2 + 1 < s.len() && (s[j2 + 1] == '+' || s[j2 + 1] == '-') {
                    j2 + 2
                } else {
                    j2 + 1
                };
                if j3 < s.len() && crate::text::is_digit(s[j3]) {
                    Some(sp_digits_end(s, j3))
                } else {
                    None
                }
            } else {
                Some(j2)
            }
        }
    }
}

/// Parses the value starting at `i` (whitespace already skipped): the value
/// and the index just after it.
pub open spec fn sp_value(s: Seq<char>, i: int) -> Option<(JsonV, int)>
    decreases s.len() - i, 0int,
        when 0 <= i <= s.len()
{
    if i >= s.len() {
        None
    } else {
        let c = s[i];
        if c == 'n' {
            if i + 4 <= s.len() && s[i + 1] == 'u' && s[i + 2] == 'l' && s[i + 3] == 'l' {
                Some((JsonV::Null, i + 4))
            } else {
                None
            }
        } else if c == 't' {
            if i + 4 <= s.len() && s[i + 1] == 'r' && s[i + 2] == 'u' && s[i + 3] == 'e' {
                Some((JsonV::Bool(true), i + 4))
            } else {
                None
            }
        } else if c == 'f' {
            if i + 5 <= s.len() && s[i + 1] == 'a' && s[i + 2] == 'l' && s[i + 3] == 's' && s[i + 4]
                == 'e' {
                Some((JsonV::Bool(false), i + 5))
            } else {
                None
            }
        } else if c == '"' {
            match sp_string(s, i + 1) {
                None => None,
                Some((cs, j)) => Some((JsonV::Str(cs), j)),
            }
        } else if c == '[' {
            match sp_arr_items(s, i + 1) {
                None => None,
                Some((items, j)) => Some((JsonV::Arr(items), j)),
            }
        } else if c == '{' {
            match sp_obj_items(s, i + 1) {
                None => None,
                Some((pairs, j)) => Some((JsonV::Obj(pairs), j)),
            }
        } else if c == '-' || crate::text::is_digit(c) {
            match sp_num_end(s, i) {
                None => None,
                Some(j) => if i < j <= s.len() {
                    Some((JsonV::Num(s.subrange(i, j)), j))
                } else {
                    None
                },
            }
        } else {
            None
        }
    }
}

/// Parses the items of an array from `i` (just after the opening bracket).
pub open spec fn sp_arr_items(s: Seq<char>, i: int) -> Option<(Seq<JsonV>, int)>
    decreases s.len() - i, 2int,
        when 0 <= i <= s.len()
{
    let k = sp_ws(s, i);
    if k < i || k >= s.len() {
        None
    } else if s[k] == ']' {
        Some((Seq::empty(), k + 1))
    } else {
        sp_arr_elems(s, k)
    }
}

/// Parses one or more comma-separated array elements from `i` (at the start
/// of a value).
pub open spec fn sp_arr_elems(s: Seq<char>, i: int) -> Option<(Seq<JsonV>, int)>
    decreases s.len() - i, 1int,
        when 0 <= i <= s.len()
{
    match sp_value(s, i) {
        None => None,
        Some((v, j)) => if j <= i || j > s.len() {
            None
        } else {
            let k = sp_ws(s, j);
            if k < j || k >= s.len() {
                None
            } else if s[k] == ',' {
                let k2 = sp_ws(s, k + 1);
                if k2 < k + 1 || k2 > s.len() {
                    None
                } else {
                    match sp_arr_elems(s, k2) {
                        None => None,
                        Some((rest, e)) => Some((seq![v] + rest, e)),
                    }
                }
            } else if s[k] == ']' {
                Some((seq![v], k + 1))
            } else {
                None
            }
        },
    }
}

/// Parses the members of an object from `i` (just after the opening brace).
pub open spec fn sp_obj_items(s: Seq<char>, i: int) -> Option<(Seq<(Seq<char>, JsonV)>, int)>
    decreases s.len() - i, 2int,
        when 0 <= i <= s.len()
{
    let k = sp_ws(s, i);
    if k < i || k >= s.len() {
        None
    } else if s[k] == '}' {
        Some((Seq::empty(), k + 1))
    } else {
        sp_obj_elems(s, k)
    }
}

/// Parses one or more comma-separated object members from `i` (at the start
/// of a member's key).
pub open spec fn sp_obj_elems(s: Seq<char>, i: int) -> Option<(Seq<(Seq<char>, JsonV)>, int)>
    decreases s.len() - i, 1int,
        when 0 <= i <= s.len()
{
    if i >= s.len() || s[i] != '"' {
        None
    } else {
        match sp_string(s, i + 1) {
            None => None,
            Some((key, j)) => if j <= i || j > s.len() {
                None
            } else {
                let k = sp_ws(s, j);
                if k < j || k >= s.len() || s[k] != ':' {
                    None
                } else {
                    let k2 = sp_ws(s, k + 1);
                    if k2 < k + 1 || k2 > s.len() {
                        None
                    } else {
                        match sp_value(s, k2) {
                            None => None,
                            Some((v, j2)) => if j2 <= k2 || j2 > s.len() {
                                None
                            } else {
                                let k3 = sp_ws(s, j2);
                                if k3 < j2 || k3 >= s.len() {
                                    None
                                } else if s[k3] == ',' {
                                    let k4 = sp_ws(s, k3 + 1);
                                    if k4 < k3 + 1 || k4 > s.len() {
                                        None
                                    } else {
                                        match sp_obj_elems(s, k4) {
                                            None => None,
                                            Some((rest, e)) => Some((seq![(key, v)] + rest, e)),
                                        }
                                    }
                                } else if s[k3] == '}' {
                                    Some((seq![(key, v)], k3 + 1))
                                } else {
                                    None
                                }
                            },
                        }
                    }
                }
            },
        }
    }
}

/// Appending one tree to a sequence appends its abstract value.
pub proof fn lemma_v_arr_push(items: Seq<Json>, x: Json)
    ensures
        Json::v_arr(items.push(x)) == Json::v_arr(items) + seq![x@],
    decreases items.len(),
{
    if items.len() == 0 {
        assert(items.push(x).drop_first() =~= Seq::<Json>::empty());
        assert(items.push(x).len() == 1);
        assert(items.push(x)[0] == x);
        assert(Json::v_arr(items.push(x)) == seq![items.push(x)[0].v()] + Json::v_arr(
            items.push(x).drop_first(),
        ));
        assert(Json::v_arr(items.push(x).drop_first()) == Seq::<JsonV>::empty());
        assert(x@ == x.v());
        assert(Json::v_arr(items) == Seq::<JsonV>::empty());
        assert(Json::v_arr(items.push(x)) =~= Json::v_arr(items) + seq![x@]);
    } else {
        assert(items.push(x).drop_first() =~= items.drop_first().push(x));
        lemma_v_arr_push(items.drop_first(), x);
        assert(Json::v_arr(items.push(x)) =~= Json::v_arr(items) + seq![x@]);
    }
}

/// Appending one member to a sequence appends its abstract value.
pub proof fn lemma_v_obj_push(pairs: Seq<(String, Json)>, k: String, x: Json)
    ensures
        Json::v_obj(pairs.push((k, x))) == Json::v_obj(pairs) + seq![(k@, x@)],
    decreases pairs.len(),
{
    if pairs.len() == 0 {
        assert(pairs.push((k, x)).drop_first() =~= Seq::<(String, Json)>::empty());
        assert(pairs.push((k, x))[0] == (k, x));
        assert(Json::v_obj(pairs.push((k, x))) == seq![(pairs.push((k, x))[0].0@, pairs.push(
            (k, x),
        )[0].1.v())] + Json::v_obj(pairs.push((k, x)).drop_first()));
        assert(Json::v_obj(pairs.push((k, x)).drop_first()) == Seq::<(Seq<char>, JsonV)>::empty());
        assert(Json::v_obj(pairs) == Seq::<(Seq<char>, JsonV)>::empty());
        assert(Json::v_obj(pairs.push((k, x))) =~= Json::v_obj(pairs) + seq![(k@, x@)]);
    } else {
        assert(pairs.push((k, x)).drop_first() =~= pairs.drop_first().push((k, x)));
        lemma_v_obj_push(pairs.drop_first(), k, x);
        assert(Json::v_obj(pairs.push((k, x))) =~= Json::v_obj(pairs) + seq![(k@, x@)]);
    }
}

/// The abstract values of a sequence of trees line up with the trees.
pub proof fn lemma_v_arr_index(items: Seq<Json>)
    ensures
        Json::v_arr(items).len() == items.len(),
        forall|i: int| 0 <= i < items.len() ==> Json::v_arr(items)[i] == #[trigger] items[i]@,
    decreases items.len(),
{
    if items.len() > 0 {
        lemma_v_arr_index(items.drop_first());
        assert(Json::v_arr(items) == seq![items[0].v()] + Json::v_arr(items.drop_first()));
        assert forall|i: int| 0 <= i < items.len() implies Json::v_arr(items)[i]
            == #[trigger] items[i]@ by {
            if i > 0 {
                assert(Json::v_arr(items.drop_first())[i - 1] == items.drop_first()[i - 1]@);
                assert(items.drop_first()[i - 1] == items[i]);
            }
        }
    }
}

/// The abstract values of a sequence of members line up with the members.
pub proof fn lemma_v_obj_index(pairs: Seq<(String, Json)>)
    ensures
        Json::v_obj(pairs).len() == pairs.len(),
        forall|i: int|
            0 <= i < pairs.len() ==> Json::v_obj(pairs)[i] == (
            #[trigger] pairs[i].0@,
            pairs[i].1@,
            ),
    decreases pairs.len(),
{
    if pairs.len() > 0 {
        lemma_v_obj_index(pairs.drop_first());
        assert(Json::v_obj(pairs) == seq![(pairs[0].0@, pairs[0].1.v())] + Json::v_obj(
            pairs.drop_first(),
        ));
        assert forall|i: int| 0 <= i < pairs.len() implies Json::v_obj(pairs)[i] == (
        #[trigger] pairs[i].0@,
        pairs[i].1@,
        ) by {
            if i > 0 {
                assert(Json::v_obj(pairs.drop_first())[i - 1] == (
                pairs.drop_first()[i - 1].0@,
                pairs.drop_first()[i - 1].1@,
                ));
                assert(pairs.drop_first()[i - 1] == pairs[i]);
            }
        }
    }
}

/// Parses a whole document: one value surrounded by whitespace and nothing
/// else.
pub open spec fn sp_doc(s: Seq<char>) -> Option<JsonV> {
    let i = sp_ws(s, 0);
    if i < 0 || i > s.len() {
        None
    } else {
        match sp_value(s, i) {
            None => None,
            Some((v, j)) => if 0 <= j <= s.len() && sp_ws(s, j) == s.len() {
                Some(v)
            } else {
                None
            },
        }
    }
}

#[verifier::loop_isolation(false)]
fn skip_ws(s: &Vec<char>, i: usize) -> (r: usize)
    requires
        i <= s@.len(),
    ensures
        i <= r <= s@.len(),
        r as int == sp_ws(s@, i as int),
{
    let mut k: usize = i;
    while k < s.len() && (s[k] == ' ' || s[k] == '\t' || s[k] == '\n' || s[k] == '\r')
        invariant
            i <= k <= s@.len(),
            sp_ws(s@, i as int) == sp_ws(s@, k as int),
        decreases s@.len() - k,
    {
        k = k + 1;
    }
    k
}

#[verifier::loop_isolation(false)]
fn scan_digits(s: &Vec<char>, i: usize) -> (r: usize)
    requires
        i <= s@.len(),
    ensures
        i <= r <= s@.len(),
        r as int == sp_digits_end(s@, i as int),
{
    let mut k: usize = i;
    while k < s.len() && s[k] >= '0' && s[k] <= '9'
        invariant
            i <= k <= s@.len(),
            sp_digits_end(s@, i as int) == sp_digits_end(s@, k as int),
        decreases s@.len() - k,
    {
        k = k + 1;
    }
    k
}

fn hex_digit(c: char) -> (r: Option<u32>)
    ensures
        r is Some <==> is_hex(c),
        r matches Some(v) ==> v == hex_val(c),
{
    if c >= '0' && c <= '9' {
        Some(c as u32 - 48)
    } else if c >= 'a' && c <= 'f' {
        Some(c as u32 - 87)
    } else if c >= 'A' && c <= 'F' {
        Some(c as u32 - 55)
    } else {
        None
    }
}

fn read_hex4(s: &Vec<char>, i: usize) -> (r: Option<u32>)
    requires
        i <= s@.len(),
    ensures
        r == sp_hex4(s@, i as int),
{
    if s.len() - i < 4 {
        return None;
    }
    let h0 = match hex_digit(s[i]) {
        Some(v) => v,
        None => {
            return None;
        },
    };
    let h1 = match hex_digit(s[i + 1]) {
        Some(v) => v,
        None => {
            return None;
        },
    };
    let h2 = match hex_digit(s[i + 2]) {
        Some(v) => v,
        None => {
            return None;
        },
    };
    let h3 = match hex_digit(s[i + 3]) {
        Some(v) => v,
        None => {
            return None;
        },
    };
    Some(h0 * 0x1000 + h1 * 0x100 + h2 * 0x10 + h3)
}

#[verifier::loop_isolation(false)]
fn copy_range(s: &Vec<char>, from: usize, to: usize) -> (r: Vec<char>)
    requires
        from <= to <= s@.len(),
    ensures
        r@ == s@.subrange(from as int, to as int),
{
    let mut out: Vec<char> = Vec::new();
    let mut k: usize = from;
    proof {
        assert(out@ =~= s@.subrange(from as int, from as int));
    }
    while k < to
        invariant
            from <= k <= to,
            out@ == s@.subrange(from as int, k as int),
        decreases to - k,
    {
        out.push(s[k]);
        k = k + 1;
        proof {
            assert(out@ =~= s@.subrange(from as int, k as int));
        }
    }
    out
}

#[verifier::loop_isolation(false)]
fn parse_number_end(s: &Vec<char>, i: usize) -> (r: Option<usize>)
    requires
        i <= s@.len(),
    ensures
        r matches Some(e) ==> i < e <= s@.len() && sp_num_end(s@, i as int) == Some(e as int),
        r is None ==> sp_num_end(s@, i as int) is None,
{
    let n = s.len();
    let j0: usize = if i < n && s[i] == '-' {
        i + 1
    } else {
        i
    };
    if j0 >= n {
        return None;
    }
    let c0 = s[j0];
    if c0 < '0' || c0 > '9' {
        return None;
    }
    let j1: usize = if c0 == '0' {
        j0 + 1
    } else {
        let e = scan_digits(s, j0);
        proof {
            assert(sp_digits_end(s@, j0 as int) == sp_digits_end(s@, j0 + 1));
            lemma_sp_digits_end_bounds(s@, j0 + 1);
        }
        e
    };
    assert(j0 < j1 <= s@.len());
    let j2: usize;
    if j1 < n && s[j1] == '.' {
        if j1 + 1 < n && s[j1 + 1] >= '0' && s[j1 + 1] <= '9' {
            j2 = scan_digits(s, j1 + 1);
        } else {
            return None;
        }
    } else {
        j2 = j1;
    }
    if j2 < n && (s[j2] == 'e' || s[j2] == 'E') {
        let j3: usize = if j2 + 1 < n && (s[j2 + 1] == '+' || s[j2 + 1] == '-') {
            j2 + 2
        } else {
            j2 + 1
        };
        if j3 < n && s[j3] >= '0' && s[j3] <= '9' {
            let e = scan_digits(s, j3);
            proof {
                assert(sp_digits_end(s@, j3 as int) == sp_digits_end(s@, j3 + 1));
                lemma_sp_digits_end_bounds(s@, j3 + 1);
            }
            Some(e)
        } else {
            None
        }
    } else {
        Some(j2)
    }
}

/// Parses the body of a string literal, `i` pointing just after the opening
/// quote.
#[verifier::loop_isolation(false)]
#[verifier::rlimit(60)]
fn parse_string_body(s: &Vec<char>, i: usize) -> (r: Option<(String, usize)>)
    requires
        i <= s@.len(),
    ensures
        r matches Some((st, e)) ==> i < e <= s@.len() && sp_string(s@, i as int) == Some(
            (st@, e as int),
        ),
        r is None ==> sp_string(s@, i as int) is None,
{
    broadcast use vstd::utf8::char_u32_cast;

    let ghost start = i as int;
    let mut acc: Vec<char> = Vec::new();
    let mut i: usize = i;
    proof {
        let post = sp_string(s@, i as int);
        if post is Some {
            let p = post->Some_0;
            assert(acc@ + p.0 =~= p.0);
        }
    }
    loop
        invariant
            start <= i <= s@.len(),
            (match sp_string(s@, i as int) {
                None => sp_string(s@, start) is None,
                Some((t, e)) => sp_string(s@, start) == Some((acc@ + t, e)),
            }),
        decreases s@.len() - i,
    {
        if i >= s.len() {
            return None;
        }
        let c = s[i];
        if c == '"' {
            let st = crate::text::string_from_chars(&acc);
            proof {
                assert(acc@ + Seq::<char>::empty() =~= acc@);
            }
            return Some((st, i + 1));
        } else if c == '\\' {
            if s.len() - i < 2 {
                return None;
            }
            let e = s[i + 1];
            if e == 'u' {
                let u1 = match read_hex4(s, i + 2) {
                    Some(v) => v,
                    None => {
                        return None;
                    },
                };
                if 0xD800 <= u1 && u1 < 0xDC00 {
                    if s.len() - i >= 12 && s[i + 6] == '\\' && s[i + 7] == 'u' {
                        let u2 = match read_hex4(s, i + 8) {
                            Some(v) => v,
                            None => {
                                return None;
                            },
                        };
                        if 0xDC00 <= u2 && u2 < 0xE000 {
                            let code: u32 = 0x10000 + (u1 - 0xD800) * 0x400 + (u2 - 0xDC00);
                            let ch = match crate::text::char_from_u32(code) {
                                Some(ch) => ch,
                                None => {
                                    proof {
                                        assert(false);
                                    }
                                    return None;
                                },
                            };
                            let ghost old_acc = acc@;
                            acc.push(ch);
                            i = i + 12;
                            proof {
                                vstd::utf8::char_u32_cast(ch, code);
                                let post = sp_string(s@, i as int);
                                if post is Some {
                                    let p = post->Some_0;
                                    assert(acc@ + p.0 =~= old_acc + (seq![ch] + p.0));
                                }
                            }
                        } else {
                            return None;
                        }
                    } else {
                        return None;
                    }
                } else if 0xDC00 <= u1 && u1 < 0xE000 {
                    return None;
                } else {
                    let ch = match crate::text::char_from_u32(u1) {
                        Some(ch) => ch,
                        None => {
                            proof {
                                assert(false);
                            }
                            return None;
                        },
                    };
                    let ghost old_acc = acc@;
                    acc.push(ch);
                    i = i + 6;
                    proof {
                        vstd::utf8::char_u32_cast(ch, u1);
                        let post = sp_string(s@, i as int);
                        if post is Some {
                            let p = post->Some_0;
                            assert(acc@ + p.0 =~= old_acc + (seq![ch] + p.0));
                        }
                    }
                }
            } else {
                let d: char;
                if e == '"' {
                    d = '"';
                } else if e == '\\' {
                    d = '\\';
                } else if e == '/' {
                    d = '/';
                } else if e == 'b' {
                    d = '\u{8}';
                } else if e == 'f' {
                    d = '\u{c}';
                } else if e == 'n' {
                    d = '\n';
                } else if e == 'r' {
                    d = '\r';
                } else if e == 't' {
                    d = '\t';
                } else {
                    return None;
                }
                let ghost old_acc = acc@;
                acc.push(d);
                i = i + 2;
                proof {
                    let post = sp_string(s@, i as int);
                    if post is Some {
                        let p = post->Some_0;
                        assert(acc@ + p.0 =~= old_acc + (seq![d] + p.0));
                    }
                }
            }
        } else if c as u32 >= 0x20 {
            let ghost old_acc = acc@;
            acc.push(c);
            i = i + 1;
            proof {
                let post = sp_string(s@, i as int);
                if post is Some {
                    let p = post->Some_0;
                    assert(acc@ + p.0 =~= old_acc + (seq![c] + p.0));
                }
            }
        } else {
            return None;
        }
    }
}

/// Parses the value starting at `i` (whitespace already skipped).
#[verifier::loop_isolation(false)]
fn parse_value(s: &Vec<char>, i: usize) -> (r: Option<(Json, usize)>)
    requires
        i <= s@.len(),
    ensures
        r matches Some((j, e)) ==> i < e <= s@.len() && sp_value(s@, i as int) == Some(
            (j@, e as int),
        ),
        r is None ==> sp_value(s@, i as int) is None,
    decreases s@.len() - i,
{
    let n = s.len();
    if i >= n {
        return None;
    }
    let c = s[i];
    if c == 'n' {
        if n - i >= 4 && s[i + 1] == 'u' && s[i + 2] == 'l' && s[i + 3] == 'l' {
            Some((Json::Null, i + 4))
        } else {
            None
        }
    } else if c == 't' {
        if n - i >= 4 && s[i + 1] == 'r' && s[i + 2] == 'u' && s[i + 3] == 'e' {
            Some((Json::Bool(true), i + 4))
        } else {
            None
        }
    } else if c == 'f' {
        if n - i >= 5 && s[i + 1] == 'a' && s[i + 2] == 'l' && s[i + 3] == 's' && s[i + 4] == 'e' {
            Some((Json::Bool(false), i + 5))
        } else {
            None
        }
    } else if c == '"' {
        match parse_string_body(s, i + 1) {
            Some((st, e)) => Some((Json::Str(st), e)),
            None => None,
        }
    } else if c == '[' {
        let mut items: Vec<Json> = Vec::new();
        let mut k = skip_ws(s, i + 1);
        if k < n && s[k] == ']' {
            return Some((Json::Arr(items), k + 1));
        }
        if k >= n {
            return None;
        }
        proof {
            assert(Json::v_arr(items@) =~= Seq::<JsonV>::empty());
            let post = sp_arr_elems(s@, k as int);
            if post is Some {
                let p = post->Some_0;
                assert(Json::v_arr(items@) + p.0 =~= p.0);
            }
        }
        loop
            invariant
                i + 1 <= k <= s@.len(),
                (match sp_arr_elems(s@, k as int) {
                    None => sp_arr_items(s@, i + 1) is None,
                    Some((rest, e)) => sp_arr_items(s@, i + 1) == Some(
                        (Json::v_arr(items@) + rest, e),
                    ),
                }),
            decreases s@.len() - k,
        {
            let (v, j) = match parse_value(s, k) {
                Some(p) => p,
                None => {
                    return None;
                },
            };
            let k3 = skip_ws(s, j);
            if k3 >= n {
                return None;
            }
            let sep = s[k3];
            if sep == ',' {
                let k4 = skip_ws(s, k3 + 1);
                let ghost old_items = items@;
                items.push(v);
                proof {
                    lemma_v_arr_push(old_items, v);
                    let post = sp_arr_elems(s@, k4 as int);
                    if post is Some {
                        let p = post->Some_0;
                        assert(Json::v_arr(items@) + p.0 =~= Json::v_arr(old_items) + (seq![v@]
                            + p.0));
                    }
                }
                k = k4;
            } else if sep == ']' {
                let ghost old_items = items@;
                items.push(v);
                proof {
                    lemma_v_arr_push(old_items, v);
                    assert(Json::v_arr(items@) =~= Json::v_arr(old_items) + seq![v@]);
                }
                return Some((Json::Arr(items), k3 + 1));
            } else {
                return None;
            }
        }
    } else if c == '{' {
        let mut pairs: Vec<(String, Json)> = Vec::new();
        let mut k = skip_ws(s, i + 1);
        if k < n && s[k] == '}' {
            return Some((Json::Obj(pairs), k + 1));
        }
        if k >= n {
            return None;
        }
        proof {
            assert(Json::v_obj(pairs@) =~= Seq::<(Seq<char>, JsonV)>::empty());
            let post = sp_obj_elems(s@, k as int);
            if post is Some {
                let p = post->Some_0;
                assert(Json::v_obj(pairs@) + p.0 =~= p.0);
            }
        }
        loop
            invariant
                i + 1 <= k <= s@.len(),
                (match sp_obj_elems(s@, k as int) {
                    None => sp_obj_items(s@, i + 1) is None,
                    Some((rest, e)) => sp_obj_items(s@, i + 1) == Some(
                        (Json::v_obj(pairs@) + rest, e),
                    ),
                }),
            decreases s@.len() - k,
        {
            if k >= n || s[k] != '"' {
                return None;
            }
            let (key, j) = match parse_string_body(s, k + 1) {
                Some(p) => p,
                None => {
                    return None;
                },
            };
            let k1 = skip_ws(s, j);
            if k1 >= n || s[k1] != ':' {
                return None;
            }
            let k2 = skip_ws(s, k1 + 1);
            let (v, j2) = match parse_value(s, k2) {
                Some(p) => p,
                None => {
                    return None;
                },
            };
            let k3 = skip_ws(s, j2);
            if k3 >= n {
                return None;
            }
            let sep = s[k3];
            if sep == ',' {
                let k4 = skip_ws(s, k3 + 1);
                let ghost old_pairs = pairs@;
                let ghost gk = key;
                let ghost gx = v;
                pairs.push((key, v));
                proof {
                    lemma_v_obj_push(old_pairs, gk, gx);
                    let post = sp_obj_elems(s@, k4 as int);
                    if post is Some {
                        let p = post->Some_0;
                        assert(Json::v_obj(pairs@) + p.0 =~= Json::v_obj(old_pairs) + (seq![
                            (gk@, gx@),
                        ] + p.0));
                    }
                }
                k = k4;
            } else if sep == '}' {
                let ghost old_pairs = pairs@;
                let ghost gkey = key@;
                let ghost gv = v@;
                pairs.push((key, v));
                proof {
                    lemma_v_obj_push(old_pairs, pairs@.last().0, pairs@.last().1);
                    assert(Json::v_obj(pairs@) =~= Json::v_obj(old_pairs) + seq![(gkey, gv)]);
                }
                return Some((Json::Obj(pairs), k3 + 1));
            } else {
                return None;
            }
        }
    } else if c == '-' || (c >= '0' && c <= '9') {
        match parse_number_end(s, i) {
            Some(e) => {
                let tok = copy_range(s, i, e);
                let st = crate::text::string_from_chars(&tok);
                Some((Json::Num(st), e))
            },
            None => None,
        }
    } else {
        None
    }
}

/// Parses one JSON document. The result is exactly the document's value:
/// `Err` is returned exactly when the input is not one well-formed JSON
/// document.
pub fn parse_json(src: &str) -> (r: Result<Json, JsonError>)
    ensures
        r matches Ok(j) ==> sp_doc(src@) == Some(j@),
        r is Err ==> sp_doc(src@) is None && r == Err::<Json, JsonError>(JsonError::Syntax),
{
    let s = crate::text::chars_of(src);
    let i = skip_ws(&s, 0);
    match parse_value(&s, i) {
        None => Err(JsonError::Syntax),
        Some((j, e)) => {
            let k = skip_ws(&s, e);
            if k == s.len() {
                Ok(j)
            } else {
                Err(JsonError::Syntax)
            }
        },
    }
}

} // verus!

verus! {

/// Looks `key` up in a member sequence; the last member with that name
/// wins, matching how the tool's own JSON handling treats duplicates.
pub open spec fn sp_lookup(pairs: Seq<(Seq<char>, JsonV)>, key: Seq<char>) -> Option<JsonV>
    decreases pairs.len(),
{
    if pairs.len() == 0 {
        None
    } else if pairs.last().0 == key {
        Some(pairs.last().1)
    } else {
        sp_lookup(pairs.drop_last(), key)
    }
}

/// The member of `v` named `key`, when `v` is an object that has one.
pub open spec fn sp_field(v: JsonV, key: Seq<char>) -> Option<JsonV> {
    match v {
        JsonV::Obj(pairs) => sp_lookup(pairs, key),
        _ => None,
    }
}

impl Json {
    /// Whether this value is an object.
    pub fn is_object(&self) -> (r: bool)
        ensures
            r == (self@ is Obj),
    {
        match self {
            Json::Obj(_) => true,
            _ => false,
        }
    }

    /// The member of this object named `key`, if any.
    #[verifier::loop_isolation(false)]
    pub fn get<'a>(&'a self, key: &str) -> (r: Option<&'a Json>)
        ensures
            r matches Some(j) ==> sp_field(self@, key@) == Some(j@),
            r is None ==> sp_field(self@, key@) is None,
    {
        match self {
            Json::Obj(pairs) => {
                proof {
                    lemma_v_obj_index(pairs@);
                }
                let ghost whole = Json::v_obj(pairs@);
                let mut k: usize = pairs.len();
                proof {
                    assert(whole.take(k as int) =~= whole);
                }
                while k > 0
                    invariant
                        0 <= k <= pairs@.len(),
                        sp_lookup(whole, key@) == sp_lookup(whole.take(k as int), key@),
                    decreases k,
                {
                    k = k - 1;
                    if crate::text::str_eq(pairs[k].0.as_str(), key) {
                        proof {
                            assert(whole.take(k + 1).last() == whole[k as int]);
                            assert(whole[k as int].0 == key@);
                        }
                        return Some(&pairs[k].1);
                    }
                    proof {
                        assert(whole.take(k + 1).last() == whole[k as int]);
                        assert(whole.take(k + 1).drop_last() =~= whole.take(k as int));
                    }
                }
                proof {
                    assert(whole.take(0) =~= Seq::<(Seq<char>, JsonV)>::empty());
                }
                None
            },
            _ => None,
        }
    }
}

} // verus!

verus! {

impl Clone for Json {
    /// A deep copy with the same abstract value.
    #[verifier::loop_isolation(false)]
    fn clone(&self) -> (r: Json)
        ensures
            r@ == self@,
        decreases self,
    {
        match self {
            Json::Null => Json::Null,
            Json::Bool(b) => Json::Bool(*b),
            Json::Num(t) => Json::Num(t.clone()),
            Json::Str(s) => Json::Str(s.clone()),
            Json::Arr(items) => {
                let mut out: Vec<Json> = Vec::new();
                let mut idx: usize = 0;
                while idx < items.len()
                    invariant
                        0 <= idx <= items@.len(),
                        out@.len() == idx,
                        forall|i: int| 0 <= i < idx ==> (#[trigger] out@[i])@ == items@[i]@,
                    decreases items@.len() - idx,
                {
                    out.push(items[idx].clone());
                    idx = idx + 1;
                }
                let r = Json::Arr(out);
                proof {
                    lemma_v_arr_index(out@);
                    lemma_v_arr_index(items@);
                    assert forall|i: int| 0 <= i < out@.len() implies Json::v_arr(out@)[i]
                        == Json::v_arr(items@)[i] by {
                        assert(out@[i]@ == items@[i]@);
                    }
                    assert(Json::v_arr(out@) =~= Json::v_arr(items@));
                }
                r
            },
            Json::Obj(pairs) => {
                let mut out: Vec<(String, Json)> = Vec::new();
                let mut idx: usize = 0;
                while idx < pairs.len()
                    invariant
                        0 <= idx <= pairs@.len(),
                        out@.len() == idx,
                        forall|i: int|
                            0 <= i < idx ==> (#[trigger] out@[i]).0@ == pairs@[i].0@ && out@[i].1@
                                == pairs@[i].1@,
                    decreases pairs@.len() - idx,
                {
                    let key = pairs[idx].0.clone();
                    let val = pairs[idx].1.clone();
                    out.push((key, val));
                    idx = idx + 1;
                }
                let r = Json::Obj(out);
                proof {
                    lemma_v_obj_index(out@);
                    lemma_v_obj_index(pairs@);
                    assert forall|i: int| 0 <= i < out@.len() implies Json::v_obj(out@)[i]
                        == Json::v_obj(pairs@)[i] by {
                        assert(out@[i].0@ == pairs@[i].0@ && out@[i].1@ == pairs@[i].1@);
                    }
                    assert(Json::v_obj(out@) =~= Json::v_obj(pairs@));
                }
                r
            },
        }
    }
}

} // verus!
