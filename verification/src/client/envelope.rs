//! The two forms in which the service sends a collection.
//!
//! A collection comes either wrapped, with a count and the links to its
//! neighbour pages, or bare, as the list alone. Both are brought to the
//! wrapped form before anything else reads them.

use vstd::prelude::*;
use crate::client::types::PaginatedResponse;

verus! {

/// The form that a body has, told by its first character that is not blank.
#[derive(Clone, Copy, Debug, PartialEq, Eq, Structural)]
pub enum BodyShape {
    /// A list: the body of a bare collection.
    Array,
    /// An object: the body of a wrapped collection.
    Object,
    /// Neither.
    Other,
}

/// A collection as it was sent.
#[derive(Debug, Clone, PartialEq, Eq)]
pub enum ListBody<T> {
    Bare(Vec<T>),
    Enveloped(PaginatedResponse<T>),
}

/// One of the four characters that may stand between the tokens of a body.
pub open spec fn is_blank(c: char) -> bool {
    c == ' ' || c == '\t' || c == '\n' || c == '\r'
}

/// The place of the first character of `body` that is not blank, or the
/// length of `body` where there is none.
pub open spec fn first_mark(body: Seq<char>) -> int
    decreases body.len(),
{
    if body.len() == 0 {
        0
    } else if !is_blank(body[0]) {
        0
    } else {
        1 + first_mark(body.drop_first())
    }
}

/// The form that a body has.
pub open spec fn shape_of(body: Seq<char>) -> BodyShape {
    let at = first_mark(body);
    if at >= body.len() {
        BodyShape::Other
    } else if body[at] == '[' {
        BodyShape::Array
    } else if body[at] == '{' {
        BodyShape::Object
    } else {
        BodyShape::Other
    }
}

proof fn lemma_first_mark(body: Seq<char>, at: int)
    requires
        0 <= at <= body.len(),
        forall|k: int| 0 <= k < at ==> is_blank(#[trigger] body[k]),
        at < body.len() ==> !is_blank(body[at]),
    ensures
        first_mark(body) == at,
    decreases body.len(),
{
    if body.len() > 0 && at > 0 {
        let rest = body.drop_first();
        assert(is_blank(body[0]));
        assert forall|k: int| 0 <= k < at - 1 implies is_blank(#[trigger] rest[k]) by {
            assert(rest[k] == body[k + 1]);
        }
        lemma_first_mark(rest, at - 1);
    }
}

/// Tells the form of a body by its first character that is not blank.
pub fn body_shape(body: &str) -> (r: BodyShape)
    ensures
        r == shape_of(body@),
{
    let length = body.unicode_len();
    let mut at: usize = 0;
    while at < length
        invariant
            length == body@.len(),
            at <= length,
            forall|k: int| 0 <= k < at ==> is_blank(#[trigger] body@[k]),
        decreases length - at,
    {
        let c = body.get_char(at);
        if c == ' ' || c == '\t' || c == '\n' || c == '\r' {
            at = at + 1;
        } else {
            proof {
                lemma_first_mark(body@, at as int);
            }
            if c == '[' {
                return BodyShape::Array;
            } else if c == '{' {
                return BodyShape::Object;
            } else {
                return BodyShape::Other;
            }
        }
    }
    proof {
        lemma_first_mark(body@, at as int);
    }
    BodyShape::Other
}

/// The count that goes with a bare list of `length` items: the length, as
/// far as the count's type can hold it.
pub open spec fn count_of(length: nat) -> i32 {
    if length <= i32::MAX {
        length as i32
    } else {
        i32::MAX
    }
}

/// The wrapped form of a collection: a wrapped one as it is, a bare one with
/// its own length for the count and without neighbour pages.
pub open spec fn normalized<T>(body: ListBody<T>) -> PaginatedResponse<T> {
    match body {
        ListBody::Bare(items) => PaginatedResponse {
            count: count_of(items@.len()),
            next: None,
            previous: None,
            results: items,
        },
        ListBody::Enveloped(page) => page,
    }
}

impl<T> ListBody<T> {
    /// Brings the collection to its wrapped form.
    pub fn normalize(self) -> (r: PaginatedResponse<T>)
        ensures
            r == normalized(self),
    {
        match self {
            ListBody::Bare(items) => {
                let length = items.len();
                let count: i32 = if length <= 0x7fff_ffff {
                    length as i32
                } else {
                    i32::MAX
                };
                PaginatedResponse { count, next: None, previous: None, results: items }
            },
            ListBody::Enveloped(page) => page,
        }
    }
}

/// A bare list and the same list wrapped with its own length and without
/// neighbour pages come to the same thing; an empty one of either form comes
/// to the empty page.
pub proof fn law_envelope_tolerance<T>(items: Vec<T>)
    ensures
        normalized(ListBody::Bare(items)) == normalized(
            ListBody::Enveloped(
                PaginatedResponse {
                    count: count_of(items@.len()),
                    next: None,
                    previous: None,
                    results: items,
                },
            ),
        ),
        items@.len() == 0 ==> normalized(ListBody::Bare(items)).count == 0,
{
}

} // verus!
