//! The query of a resize request: reading it from key and value pairs,
//! checking its dimensions, and its canonical form.

use vstd::prelude::*;
use vstd::string::*;
use vstd::utf8::*;
use crate::decimal::{
    lemma_numeral_chars, numeral, numeral_is_injective, numeral_value, parse_u32, push_numeral,
};
use crate::handler::Request;
use crate::signature::{verifies, verify};
use crate::text::same_text;

verus! {

/// The largest width and the largest height that a request may ask for.
pub const MAX_DIM: u32 = 4096;

/// One of the two dimensions of an image.
#[derive(Clone, Copy, Debug, PartialEq, Eq, Structural)]
pub enum Dimension {
    Width,
    Height,
}

/// Why a query was turned down.
#[derive(Clone, Debug, PartialEq, Eq)]
pub enum ValidationError {
    /// A required dimension was not given.
    MissingParameter(Dimension),
    /// The value given for a dimension is not an unsigned 32-bit number.
    /// Holds the value as it was given.
    InvalidNumber(Dimension, String),
    /// A dimension is zero.
    DegenerateDimension,
    /// A dimension is above [`MAX_DIM`].
    DimensionTooLarge,
}

/// A [`ValidationError`] with its text as a sequence of characters.
pub enum ValidationErrorView {
    MissingParameter(Dimension),
    InvalidNumber(Dimension, Seq<char>),
    DegenerateDimension,
    DimensionTooLarge,
}

impl View for ValidationError {
    type V = ValidationErrorView;

    open spec fn view(&self) -> ValidationErrorView {
        match *self {
            ValidationError::MissingParameter(d) => ValidationErrorView::MissingParameter(d),
            ValidationError::InvalidNumber(d, raw) => ValidationErrorView::InvalidNumber(d, raw@),
            ValidationError::DegenerateDimension => ValidationErrorView::DegenerateDimension,
            ValidationError::DimensionTooLarge => ValidationErrorView::DimensionTooLarge,
        }
    }
}

/// The parameters of a resize request.
#[derive(Clone, Debug, PartialEq, Eq)]
pub struct Query {
    /// The width asked for, in pixels.
    pub width: u32,
    /// The height asked for, in pixels.
    pub height: u32,
    /// The signature that came with the request, if one did.
    pub token: Option<String>,
}

/// A [`Query`] with its token as a sequence of characters.
pub struct QueryView {
    pub width: u32,
    pub height: u32,
    pub token: Option<Seq<char>>,
}

impl View for Query {
    type V = QueryView;

    open spec fn view(&self) -> QueryView {
        QueryView {
            width: self.width,
            height: self.height,
            token: match self.token {
                Some(t) => Some(t@),
                None => None,
            },
        }
    }
}

/// What has been read of a query so far.
pub struct Draft {
    pub width: Option<u32>,
    pub height: Option<u32>,
    pub token: Option<Seq<char>>,
}

/// Whether a key names the width: `width` or `w`.
pub open spec fn is_width_key(key: Seq<char>) -> bool {
    key == "width"@ || key == "w"@
}

/// Whether a key names the height: `height` or `h`.
pub open spec fn is_height_key(key: Seq<char>) -> bool {
    key == "height"@ || key == "h"@
}

/// Whether a key names the token: `token`.
pub open spec fn is_token_key(key: Seq<char>) -> bool {
    key == "token"@
}

/// The draft after one more pair. A dimension's value must be a numeral; a
/// later value replaces an earlier one; a key that names nothing changes
/// nothing.
pub open spec fn absorb(draft: Draft, key: Seq<char>, value: Seq<char>) -> Result<
    Draft,
    ValidationErrorView,
> {
    if is_width_key(key) {
        match numeral_value(encode_utf8(value)) {
            Some(n) => Ok(Draft { width: Some(n), height: draft.height, token: draft.token }),
            None => Err(ValidationErrorView::InvalidNumber(Dimension::Width, value)),
        }
    } else if is_height_key(key) {
        match numeral_value(encode_utf8(value)) {
            Some(n) => Ok(Draft { width: draft.width, height: Some(n), token: draft.token }),
            None => Err(ValidationErrorView::InvalidNumber(Dimension::Height, value)),
        }
    } else if is_token_key(key) {
        Ok(Draft { width: draft.width, height: draft.height, token: Some(value) })
    } else {
        Ok(draft)
    }
}

/// The draft after all pairs, taken in order, or the error of the first pair
/// that gives a dimension a value that is no numeral.
pub open spec fn scan(pairs: Seq<(Seq<char>, Seq<char>)>) -> Result<Draft, ValidationErrorView>
    decreases pairs.len(),
{
    if pairs.len() == 0 {
        Ok(Draft { width: None, height: None, token: None })
    } else {
        match scan(pairs.drop_last()) {
            Ok(draft) => absorb(draft, pairs.last().0, pairs.last().1),
            Err(e) => Err(e),
        }
    }
}

/// The query that a finished draft stands for. A strict reading asks for
/// both dimensions, the width first; a lenient one takes zero for a dimension
/// that was not given.
pub open spec fn settle(draft: Draft, strict: bool) -> Result<QueryView, ValidationErrorView> {
    if strict && draft.width is None {
        Err(ValidationErrorView::MissingParameter(Dimension::Width))
    } else if strict && draft.height is None {
        Err(ValidationErrorView::MissingParameter(Dimension::Height))
    } else {
        Ok(
            QueryView {
                width: match draft.width {
                    Some(w) => w,
                    None => 0,
                },
                height: match draft.height {
                    Some(h) => h,
                    None => 0,
                },
                token: draft.token,
            },
        )
    }
}

/// What a list of pairs reads as.
pub open spec fn parsed(pairs: Seq<(Seq<char>, Seq<char>)>, strict: bool) -> Result<
    QueryView,
    ValidationErrorView,
> {
    match scan(pairs) {
        Ok(draft) => settle(draft, strict),
        Err(e) => Err(e),
    }
}

/// The pairs of a query with each text as a sequence of characters.
pub open spec fn pairs_view(pairs: Seq<(String, String)>) -> Seq<(Seq<char>, Seq<char>)> {
    Seq::new(pairs.len(), |i: int| (pairs[i].0@, pairs[i].1@))
}

/// Whether the dimensions of a query can be served: both at least one and at
/// most [`MAX_DIM`]. A zero is reported before an excess.
pub open spec fn checked(width: u32, height: u32) -> Result<(), ValidationErrorView> {
    if width == 0 || height == 0 {
        Err(ValidationErrorView::DegenerateDimension)
    } else if width > MAX_DIM || height > MAX_DIM {
        Err(ValidationErrorView::DimensionTooLarge)
    } else {
        Ok(())
    }
}

/// The canonical form of a pair of dimensions, which is what gets signed:
/// `/?width=` and the width, `&height=` and the height, both as shortest
/// decimal numerals.
pub open spec fn canonical_path(width: u32, height: u32) -> Seq<char> {
    "/?width="@ + numeral(width as nat) + "&height="@ + numeral(height as nat)
}

/// What is known of a query while its pairs are read.
struct Reading {
    width: Option<u32>,
    height: Option<u32>,
    token: Option<String>,
}

impl View for Reading {
    type V = Draft;

    closed spec fn view(&self) -> Draft {
        Draft {
            width: self.width,
            height: self.height,
            token: match self.token {
                Some(t) => Some(t@),
                None => None,
            },
        }
    }
}

impl Reading {
    /// Takes one more pair in.
    fn absorb(self, key: &str, value: &String) -> (r: Result<Reading, ValidationError>)
        ensures
            match r {
                Ok(next) => absorb(self@, key@, value@) == Ok::<Draft, ValidationErrorView>(next@),
                Err(e) => absorb(self@, key@, value@) == Err::<Draft, ValidationErrorView>(e@),
            },
    {
        if same_text(key, "width") || same_text(key, "w") {
            match parse_u32(value.as_str().as_bytes()) {
                Some(n) => Ok(Reading { width: Some(n), height: self.height, token: self.token }),
                None => Err(ValidationError::InvalidNumber(Dimension::Width, value.clone())),
            }
        } else if same_text(key, "height") || same_text(key, "h") {
            match parse_u32(value.as_str().as_bytes()) {
                Some(n) => Ok(Reading { width: self.width, height: Some(n), token: self.token }),
                None => Err(ValidationError::InvalidNumber(Dimension::Height, value.clone())),
            }
        } else if same_text(key, "token") {
            Ok(Reading { width: self.width, height: self.height, token: Some(value.clone()) })
        } else {
            Ok(self)
        }
    }
}

impl Query {
    /// Reads a query from its pairs, in the order in which they were given.
    pub fn parse(pairs: &[(String, String)], strict: bool) -> (r: Result<Query, ValidationError>)
        ensures
            match r {
                Ok(q) => parsed(pairs_view(pairs@), strict) == Ok::<QueryView, ValidationErrorView>(
                    q@,
                ),
                Err(e) => parsed(pairs_view(pairs@), strict) == Err::<
                    QueryView,
                    ValidationErrorView,
                >(e@),
            },
    {
        let n: usize = pairs.len();
        let ghost all = pairs_view(pairs@);
        let mut reading = Reading { width: None, height: None, token: None };
        let mut i: usize = 0;
        assert(all.take(0) =~= Seq::empty());
        while i < n
            invariant
                i <= n,
                n == pairs@.len(),
                all == pairs_view(pairs@),
                scan(all.take(i as int)) == Ok::<Draft, ValidationErrorView>(reading@),
            decreases n - i,
        {
            let pair = &pairs[i];
            proof {
                assert(all.take(i + 1).drop_last() =~= all.take(i as int));
                assert(all.take(i + 1).last() == (pair.0@, pair.1@));
            }
            match reading.absorb(pair.0.as_str(), &pair.1) {
                Ok(next) => {
                    reading = next;
                },
                Err(e) => {
                    proof {
                        lemma_scan_error_stays(all, i + 1);
                    }
                    return Err(e);
                },
            }
            i = i + 1;
        }
        assert(all.take(n as int) =~= all);
        if strict && reading.width.is_none() {
            return Err(ValidationError::MissingParameter(Dimension::Width));
        }
        if strict && reading.height.is_none() {
            return Err(ValidationError::MissingParameter(Dimension::Height));
        }
        let width: u32 = match reading.width {
            Some(w) => w,
            None => 0,
        };
        let height: u32 = match reading.height {
            Some(h) => h,
            None => 0,
        };
        Ok(Query { width, height, token: reading.token })
    }

    /// Reads the query of a request. Both dimensions must be given.
    pub fn from_request(req: &Request) -> (r: Result<Query, ValidationError>)
        ensures
            match r {
                Ok(q) => parsed(req@.query, true) == Ok::<QueryView, ValidationErrorView>(q@),
                Err(e) => parsed(req@.query, true) == Err::<QueryView, ValidationErrorView>(e@),
            },
    {
        Query::parse(req.query.as_slice(), true)
    }

    /// Checks that the dimensions can be served.
    pub fn validate(&self) -> (r: Result<(), ValidationError>)
        ensures
            match r {
                Ok(()) => checked(self.width, self.height) is Ok,
                Err(e) => checked(self.width, self.height) == Err::<(), ValidationErrorView>(e@),
            },
    {
        if self.width == 0 || self.height == 0 {
            Err(ValidationError::DegenerateDimension)
        } else if self.width > MAX_DIM || self.height > MAX_DIM {
            Err(ValidationError::DimensionTooLarge)
        } else {
            Ok(())
        }
    }

    /// The canonical form of the query's dimensions. The token has no part
    /// in it, nor has the spelling or the order of the keys that were read.
    pub fn full_path(&self) -> (path: String)
        ensures
            path@ == canonical_path(self.width, self.height),
    {
        let mut path = String::new();
        path.append("/?width=");
        push_numeral(&mut path, self.width);
        path.append("&height=");
        push_numeral(&mut path, self.height);
        assert(path@ =~= canonical_path(self.width, self.height));
        path
    }

    /// Whether the query's token signs its dimensions under `secret`. A query
    /// without a token does not verify, nor does a token that has not 64
    /// characters.
    pub fn verify_token(&self, secret: String) -> (ok: bool)
        ensures
            ok == match self@.token {
                Some(t) => verifies(canonical_path(self.width, self.height), t, secret@),
                None => false,
            },
            ok ==> (self@.token matches Some(t) && t.len() == 64),
    {
        match &self.token {
            Some(token) => {
                let path = self.full_path();
                verify(path.as_str(), token.as_str(), secret.as_str())
            },
            None => false,
        }
    }
}

/// Once a prefix of the pairs has failed, the whole list fails the same way.
proof fn lemma_scan_error_stays(pairs: Seq<(Seq<char>, Seq<char>)>, k: int)
    requires
        0 <= k <= pairs.len(),
        scan(pairs.take(k)) is Err,
    ensures
        scan(pairs) == scan(pairs.take(k)),
    decreases pairs.len() - k,
{
    if k == pairs.len() {
        assert(pairs.take(k) =~= pairs);
    } else {
        assert(pairs.take(k + 1).drop_last() =~= pairs.take(k));
        lemma_scan_error_stays(pairs, k + 1);
    }
}

/// Two pairs of dimensions with the same canonical form are the same pair:
/// what signs one extent signs no other.
pub proof fn canonical_path_is_injective(w1: u32, h1: u32, w2: u32, h2: u32)
    requires
        canonical_path(w1, h1) == canonical_path(w2, h2),
    ensures
        w1 == w2,
        h1 == h2,
{
    reveal_strlit("/?width=");
    reveal_strlit("&height=");
    let n1 = numeral(w1 as nat);
    let n2 = numeral(w2 as nat);
    let k1 = n1.len() as int;
    let k2 = n2.len() as int;
    let m1 = numeral(h1 as nat);
    let m2 = numeral(h2 as nat);
    let p1 = canonical_path(w1, h1);
    let p2 = canonical_path(w2, h2);
    lemma_numeral_chars(w1 as nat);
    lemma_numeral_chars(w2 as nat);
    assert(p1.len() == 16 + n1.len() + m1.len());
    assert(p2.len() == 16 + n2.len() + m2.len());
    if k1 < k2 {
        assert(p1[8 + k1] == '&');
        assert(p2[8 + k1] == n2[k1]);
    }
    if k2 < k1 {
        assert(p2[8 + k2] == '&');
        assert(p1[8 + k2] == n1[k2]);
    }
    assert(n1 =~= n2) by {
        assert forall|i: int| 0 <= i < n1.len() implies n1[i] == n2[i] by {
            assert(p1[8 + i] == n1[i]);
            assert(p2[8 + i] == n2[i]);
        }
    }
    assert(m1 =~= m2) by {
        assert forall|i: int| 0 <= i < m1.len() implies m1[i] == m2[i] by {
            assert(p1[16 + k1 + i] == m1[i]);
            assert(p2[16 + k2 + i] == m2[i]);
        }
    }
    numeral_is_injective(w1 as nat, w2 as nat);
    numeral_is_injective(h1 as nat, h2 as nat);
}

/// Whether two keys name the same thing: they are equal, or both name the
/// width, or both name the height.
pub open spec fn same_key(a: Seq<char>, b: Seq<char>) -> bool {
    a == b || (is_width_key(a) && is_width_key(b)) || (is_height_key(a) && is_height_key(b))
}

/// Whether two lists of pairs differ at most in how they spell the keys of
/// the dimensions.
pub open spec fn same_up_to_alias(
    p: Seq<(Seq<char>, Seq<char>)>,
    q: Seq<(Seq<char>, Seq<char>)>,
) -> bool {
    &&& p.len() == q.len()
    &&& forall|i: int| 0 <= i < p.len() ==> same_key(#[trigger] p[i].0, q[i].0) && p[i].1 == q[i].1
}

/// No key names two things.
proof fn lemma_keys_name_one_thing(key: Seq<char>)
    ensures
        !(is_width_key(key) && is_height_key(key)),
        !(is_width_key(key) && is_token_key(key)),
        !(is_height_key(key) && is_token_key(key)),
{
    reveal_strlit("width");
    reveal_strlit("w");
    reveal_strlit("height");
    reveal_strlit("h");
    reveal_strlit("token");
    if is_width_key(key) {
        assert(key[0] == 'w');
    }
    if is_height_key(key) {
        assert(key[0] == 'h');
    }
    if is_token_key(key) {
        assert(key[0] == 't');
    }
}

/// Keys that name the same thing are taken in alike.
proof fn lemma_absorb_alias(draft: Draft, a: Seq<char>, b: Seq<char>, value: Seq<char>)
    requires
        same_key(a, b),
    ensures
        absorb(draft, a, value) == absorb(draft, b, value),
{
    lemma_keys_name_one_thing(a);
    lemma_keys_name_one_thing(b);
}

/// Reading does not depend on how the keys of the dimensions are spelt:
/// `w` for `width` and `h` for `height` give the same query or the same
/// error, and with the same query the same canonical form and signature.
pub proof fn alias_invariance(
    p: Seq<(Seq<char>, Seq<char>)>,
    q: Seq<(Seq<char>, Seq<char>)>,
    strict: bool,
)
    requires
        same_up_to_alias(p, q),
    ensures
        scan(p) == scan(q),
        parsed(p, strict) == parsed(q, strict),
    decreases p.len(),
{
    if p.len() > 0 {
        let last = p.len() - 1;
        assert(same_key(p[last].0, q[last].0) && p[last].1 == q[last].1);
        assert(same_up_to_alias(p.drop_last(), q.drop_last())) by {
            assert forall|i: int| 0 <= i < p.drop_last().len() implies same_key(
                #[trigger] p.drop_last()[i].0,
                q.drop_last()[i].0,
            ) && p.drop_last()[i].1 == q.drop_last()[i].1 by {
                assert(same_key(p[i].0, q[i].0) && p[i].1 == q[i].1);
            }
        }
        alias_invariance(p.drop_last(), q.drop_last(), strict);
        match scan(p.drop_last()) {
            Ok(draft) => {
                lemma_absorb_alias(draft, p[last].0, q[last].0, p[last].1);
            },
            Err(_) => {},
        }
    }
}

/// Whether two keys do not name the same thing: not both the width, not
/// both the height, not both the token.
pub open spec fn independent_keys(a: Seq<char>, b: Seq<char>) -> bool {
    &&& !(is_width_key(a) && is_width_key(b))
    &&& !(is_height_key(a) && is_height_key(b))
    &&& !(is_token_key(a) && is_token_key(b))
}

/// The list with the pairs at `i` and `i + 1` in each other's place.
pub open spec fn exchanged(pairs: Seq<(Seq<char>, Seq<char>)>, i: int) -> Seq<
    (Seq<char>, Seq<char>),
> {
    pairs.update(i, pairs[i + 1]).update(i + 1, pairs[i])
}

/// Where a list of pairs reads, the order of two neighbours that do not
/// name the same thing is free: exchanged, the list reads as the same
/// query. So a query that reads does not depend on the order of its pairs,
/// but for which of several values of one thing comes last.
pub proof fn order_is_free(pairs: Seq<(Seq<char>, Seq<char>)>, i: int, strict: bool)
    requires
        0 <= i,
        i + 1 < pairs.len(),
        independent_keys(pairs[i].0, pairs[i + 1].0),
        scan(pairs) is Ok,
    ensures
        scan(exchanged(pairs, i)) == scan(pairs),
        parsed(exchanged(pairs, i), strict) == parsed(pairs, strict),
    decreases pairs.len(),
{
    let other = exchanged(pairs, i);
    if i + 2 == pairs.len() {
        reveal_with_fuel(scan, 3);
        let before = pairs.take(i);
        assert(pairs.drop_last().drop_last() =~= before);
        assert(other.drop_last().drop_last() =~= before);
        assert(other.last() == pairs[i]);
        assert(other.drop_last().last() == pairs[i + 1]);
        assert(pairs.drop_last().last() == pairs[i]);
        lemma_keys_name_one_thing(pairs[i].0);
        lemma_keys_name_one_thing(pairs[i + 1].0);
    } else {
        assert(other.drop_last() =~= exchanged(pairs.drop_last(), i));
        assert(other.last() == pairs.last());
        order_is_free(pairs.drop_last(), i, strict);
    }
}

/// A dimension that no pair names is not read.
proof fn lemma_unnamed_stays_unread(pairs: Seq<(Seq<char>, Seq<char>)>)
    ensures
        scan(pairs) matches Ok(draft) ==> {
            &&& (forall|i: int| 0 <= i < pairs.len() ==> !is_width_key(#[trigger] pairs[i].0))
                ==> draft.width is None
            &&& (forall|i: int| 0 <= i < pairs.len() ==> !is_height_key(#[trigger] pairs[i].0))
                ==> draft.height is None
        },
    decreases pairs.len(),
{
    if pairs.len() > 0 {
        let rest = pairs.drop_last();
        lemma_unnamed_stays_unread(rest);
        lemma_keys_name_one_thing(pairs.last().0);
        if forall|i: int| 0 <= i < pairs.len() ==> !is_width_key(#[trigger] pairs[i].0) {
            assert forall|i: int| 0 <= i < rest.len() implies !is_width_key(
                #[trigger] rest[i].0,
            ) by {
                assert(rest[i] == pairs[i]);
            }
            assert(!is_width_key(pairs[pairs.len() - 1].0));
        }
        if forall|i: int| 0 <= i < pairs.len() ==> !is_height_key(#[trigger] pairs[i].0) {
            assert forall|i: int| 0 <= i < rest.len() implies !is_height_key(
                #[trigger] rest[i].0,
            ) by {
                assert(rest[i] == pairs[i]);
            }
            assert(!is_height_key(pairs[pairs.len() - 1].0));
        }
    }
}

/// A query that leaves a dimension out cannot be served: a strict reading
/// turns it down, and a lenient one gives it a dimension of zero, which the
/// check of the dimensions turns down.
pub proof fn missing_dimension_is_rejected(pairs: Seq<(Seq<char>, Seq<char>)>, strict: bool)
    requires
        (forall|i: int| 0 <= i < pairs.len() ==> !is_width_key(#[trigger] pairs[i].0)) || (forall|
            i: int,
        | 0 <= i < pairs.len() ==> !is_height_key(#[trigger] pairs[i].0)),
    ensures
        match parsed(pairs, strict) {
            Ok(query) => !strict && checked(query.width, query.height) == Err::<
                (),
                ValidationErrorView,
            >(ValidationErrorView::DegenerateDimension),
            Err(_) => true,
        },
{
    lemma_unnamed_stays_unread(pairs);
}

} // verus!
