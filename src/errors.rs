use vstd::prelude::*;
use vstd::string::*;

verus! {

/// The faults the core reports, each carrying a free-form description.
#[derive(Debug)]
pub enum CoreError {
    /// A lookup found no matching entity.
    NotFound(String),
    /// A supplied value failed validation.
    InvalidInput(String),
}

impl CoreError {
    /// The description carried by the error, whatever its kind.
    pub open spec fn message(&self) -> Seq<char> {
        match self {
            CoreError::NotFound(msg) => msg@,
            CoreError::InvalidInput(msg) => msg@,
        }
    }

    /// The human-readable form of the error: a fixed label for its kind
    /// followed by its description, verbatim.
    pub open spec fn rendered(&self) -> Seq<char> {
        match self {
            CoreError::NotFound(msg) => "Not found: "@ + msg@,
            CoreError::InvalidInput(msg) => "Invalid input: "@ + msg@,
        }
    }

    /// Renders the error for display.
    pub fn to_string(&self) -> (r: String)
        ensures
            r@ == self.rendered(),
    {
        match self {
            CoreError::NotFound(msg) => String::from_str("Not found: ").concat(msg.as_str()),
            CoreError::InvalidInput(msg) => String::from_str("Invalid input: ").concat(
                msg.as_str(),
            ),
        }
    }
}

/// Rendering loses nothing: two errors that render to the same text are of
/// the same kind and carry the same description. In particular, distinct
/// descriptions under one kind always render differently.
pub proof fn lemma_rendered_injective(a: CoreError, b: CoreError)
    requires
        a.rendered() == b.rendered(),
    ensures
        (a is NotFound) == (b is NotFound),
        a.message() == b.message(),
{
    reveal_strlit("Not found: ");
    reveal_strlit("Invalid input: ");
    let p = match a {
        CoreError::NotFound(_) => "Not found: "@,
        CoreError::InvalidInput(_) => "Invalid input: "@,
    };
    let q = match b {
        CoreError::NotFound(_) => "Not found: "@,
        CoreError::InvalidInput(_) => "Invalid input: "@,
    };
    assert(a.rendered() == p + a.message());
    assert(b.rendered() == q + b.message());
    assert(a.rendered()[0] == p[0]);
    assert(b.rendered()[0] == q[0]);
    assert(p == q);
    assert(a.message() =~= a.rendered().subrange(p.len() as int, a.rendered().len() as int));
    assert(b.message() =~= b.rendered().subrange(q.len() as int, b.rendered().len() as int));
}

} // verus!
