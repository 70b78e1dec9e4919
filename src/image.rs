use vstd::prelude::*;
use oci_distribution::{ParseError, Reference};

verus! {

#[verifier::external_type_specification]
#[verifier::external_body]
pub struct ExReference(Reference);

#[verifier::external_type_specification]
#[verifier::external_body]
pub struct ExParseError(ParseError);

/// A parsed image reference: registry, repository, and a tag, a digest or
/// both, together with the registry client's own value for pulling.
#[derive(Debug)]
pub struct ImageReference {
    pub registry: String,
    pub repository: String,
    pub tag: Option<String>,
    pub digest: Option<String>,
    pub reference: Reference,
}

/// The string does not name an image; `cause` is the parser's reason.
#[derive(Debug, PartialEq, Eq)]
pub struct ReferenceError {
    pub cause: ParseError,
}

/// The parts of a reference as plain text.
pub type ReferenceParts = (Seq<char>, Seq<char>, Option<Seq<char>>, Option<Seq<char>>);

/// What the registry client's parser makes of a string: its parts, or
/// nothing where it refuses the string.
pub uninterp spec fn parsed_reference(s: Seq<char>) -> Option<ReferenceParts>;

pub open spec fn opt_view(o: Option<String>) -> Option<Seq<char>> {
    match o {
        Some(s) => Some(s@),
        None => None,
    }
}

impl ImageReference {
    pub open spec fn parts(self) -> ReferenceParts {
        (self.registry@, self.repository@, opt_view(self.tag), opt_view(self.digest))
    }
}

pub open spec fn parse_result_parts(r: Result<ImageReference, ReferenceError>) -> Option<
    ReferenceParts,
> {
    match r {
        Ok(i) => Some(i.parts()),
        Err(_) => None,
    }
}

/// Relies on `oci_distribution::Reference::try_from(&str)`: the outcome
/// depends on the string alone; the empty string is refused; a reference it
/// accepts has a tag or a digest (`latest` where the string names neither).
#[verifier::external_body]
fn distribution_parse(s: &str) -> (r: Result<ImageReference, ReferenceError>)
    ensures
        parse_result_parts(r) == parsed_reference(s@),
        s@.len() == 0 ==> r is Err,
        r is Ok ==> r->Ok_0.tag.is_some() || r->Ok_0.digest.is_some(),
{
    match oci_distribution::Reference::try_from(s) {
        Ok(r) => Ok(ImageReference {
            registry: r.registry().to_owned(),
            repository: r.repository().to_owned(),
            tag: r.tag().map(|t| t.to_owned()),
            digest: r.digest().map(|d| d.to_owned()),
            reference: r,
        }),
        Err(cause) => Err(ReferenceError { cause }),
    }
}

/// Parses an image reference once, up front: the parts the registry client
/// reads from `s`, or a reference error where it refuses `s`.
pub fn parse_image_reference(s: &str) -> (r: Result<ImageReference, ReferenceError>)
    ensures
        r is Ok <==> parsed_reference(s@).is_some(),
        r is Ok ==> r->Ok_0.parts() == parsed_reference(s@)->Some_0,
        r is Ok ==> r->Ok_0.tag.is_some() || r->Ok_0.digest.is_some(),
        s@.len() == 0 ==> r is Err,
{
    distribution_parse(s)
}

} // verus!
