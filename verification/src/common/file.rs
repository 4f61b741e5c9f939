use vstd::prelude::*;

use crate::common::text::str_equals;

verus! {

/// The kinds of image file that the server accepts.
#[derive(Debug, Clone, Copy, PartialEq, Eq, Structural)]
pub enum Type {
    Jpg,
    Png,
}

/// The MIME type (its essence) that names a file type.
pub open spec fn mime_type_of(t: Type) -> Seq<char> {
    match t {
        Type::Jpg => seq!['i', 'm', 'a', 'g', 'e', '/', 'j', 'p', 'e', 'g'],
        Type::Png => seq!['i', 'm', 'a', 'g', 'e', '/', 'p', 'n', 'g'],
    }
}

/// The file type that a MIME type names, if it names one.
pub open spec fn type_of_mime(m: Seq<char>) -> Option<Type> {
    if m == mime_type_of(Type::Jpg) {
        Some(Type::Jpg)
    } else if m == mime_type_of(Type::Png) {
        Some(Type::Png)
    } else {
        None
    }
}

impl Type {
    /// The file type for the MIME type `mimetype`; `None` for any other
    /// text.
    pub fn from_mime_type(mimetype: &str) -> (r: Option<Type>)
        ensures
            r == type_of_mime(mimetype@),
    {
        proof {
            reveal_strlit("image/jpeg");
            reveal_strlit("image/png");
            assert("image/jpeg"@ =~= mime_type_of(Type::Jpg));
            assert("image/png"@ =~= mime_type_of(Type::Png));
        }
        if str_equals(mimetype, "image/jpeg") {
            Some(Type::Jpg)
        } else if str_equals(mimetype, "image/png") {
            Some(Type::Png)
        } else {
            None
        }
    }

    /// The MIME type of this file type.
    pub fn to_mime_type(self) -> (r: &'static str)
        ensures
            r@ == mime_type_of(self),
    {
        proof {
            reveal_strlit("image/jpeg");
            reveal_strlit("image/png");
            assert("image/jpeg"@ =~= mime_type_of(Type::Jpg));
            assert("image/png"@ =~= mime_type_of(Type::Png));
        }
        match self {
            Type::Jpg => "image/jpeg",
            Type::Png => "image/png",
        }
    }
}

/// Reading back the MIME type of a file type gives the same file type.
pub proof fn law_mime_type_round_trip(t: Type)
    ensures
        type_of_mime(mime_type_of(t)) == Some(t),
{
    assert(mime_type_of(Type::Jpg) != mime_type_of(Type::Png)) by {
        assert(mime_type_of(Type::Jpg).len() != mime_type_of(Type::Png).len());
    }
}

/// Only the MIME types of the file types name a file type: a MIME type
/// that names a file type is that file type's MIME type, so every other
/// text (`image/webp`, say) names none.
pub proof fn law_only_known_mime_types_name_a_type(m: Seq<char>, t: Type)
    ensures
        type_of_mime(m) == Some(t) ==> m == mime_type_of(t),
        type_of_mime(m) is Some <==> (m == mime_type_of(Type::Jpg) || m == mime_type_of(
            Type::Png,
        )),
{
    law_mime_type_round_trip(Type::Jpg);
    law_mime_type_round_trip(Type::Png);
}

} // verus!
