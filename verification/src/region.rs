//! The regions and the conversion between a region and its identifier.
//!
//! Mostly used for translating the `Region` enum to a string AWS accepts,
//! for example `UsEast1` to "us-east-1", and for reading such a string back.

use crate::text::str_eq;
use std::str::FromStr;
use vstd::prelude::*;

verus! {

/// An AWS region.
#[derive(Copy, Clone, Debug, PartialEq, Eq, Structural)]
pub enum Region {
    ApNortheast1,
    ApSoutheast1,
    ApSoutheast2,
    EuCentral1,
    EuWest1,
    SaEast1,
    UsEast1,
    UsWest1,
    UsWest2,
    CnNorth1,
}

/// An error produced when attempting to convert a `str` into a `Region` fails.
#[derive(Debug)]
pub struct ParseRegionError {
    message: String,
}

/// Whether a character can stand in an identifier: a small letter, a digit
/// or a hyphen.
pub open spec fn is_identifier_char(c: char) -> bool {
    ('a' <= c && c <= 'z') || ('0' <= c && c <= '9') || c == '-'
}

impl Region {
    /// The canonical identifier of the region, as AWS accepts it.
    pub open spec fn identifier(self) -> Seq<char> {
        match self {
            Region::ApNortheast1 => "ap-northeast-1"@,
            Region::ApSoutheast1 => "ap-southeast-1"@,
            Region::ApSoutheast2 => "ap-southeast-2"@,
            Region::EuCentral1 => "eu-central-1"@,
            Region::EuWest1 => "eu-west-1"@,
            Region::SaEast1 => "sa-east-1"@,
            Region::UsEast1 => "us-east-1"@,
            Region::UsWest1 => "us-west-1"@,
            Region::UsWest2 => "us-west-2"@,
            Region::CnNorth1 => "cn-north-1"@,
        }
    }

    /// The region that a text stands for, if it stands for one.
    ///
    /// The text has to be the identifier itself: letters in another case,
    /// or blanks around it, make it the identifier of no region.
    pub open spec fn from_identifier(text: Seq<char>) -> Option<Region> {
        if text == "ap-northeast-1"@ {
            Some(Region::ApNortheast1)
        } else if text == "ap-southeast-1"@ {
            Some(Region::ApSoutheast1)
        } else if text == "ap-southeast-2"@ {
            Some(Region::ApSoutheast2)
        } else if text == "eu-central-1"@ {
            Some(Region::EuCentral1)
        } else if text == "eu-west-1"@ {
            Some(Region::EuWest1)
        } else if text == "sa-east-1"@ {
            Some(Region::SaEast1)
        } else if text == "us-east-1"@ {
            Some(Region::UsEast1)
        } else if text == "us-west-1"@ {
            Some(Region::UsWest1)
        } else if text == "us-west-2"@ {
            Some(Region::UsWest2)
        } else if text == "cn-north-1"@ {
            Some(Region::CnNorth1)
        } else {
            None
        }
    }

    /// The identifier of the region as a string slice.
    ///
    /// Every region has one, so there is nothing that could fail.
    pub fn as_str(&self) -> (name: &'static str)
        ensures
            name@ == self.identifier(),
    {
        match self {
            Region::ApNortheast1 => "ap-northeast-1",
            Region::ApSoutheast1 => "ap-southeast-1",
            Region::ApSoutheast2 => "ap-southeast-2",
            Region::EuCentral1 => "eu-central-1",
            Region::EuWest1 => "eu-west-1",
            Region::SaEast1 => "sa-east-1",
            Region::UsEast1 => "us-east-1",
            Region::UsWest1 => "us-west-1",
            Region::UsWest2 => "us-west-2",
            Region::CnNorth1 => "cn-north-1",
        }
    }

    /// The identifier of the region as a string of its own.
    pub fn to_string(&self) -> (name: String)
        ensures
            name@ == self.identifier(),
    {
        self.as_str().to_owned()
    }
}

impl FromStr for Region {
    type Err = ParseRegionError;

    /// Reads a region from its identifier.
    ///
    /// Succeeds exactly on the ten identifiers, with the region that the
    /// identifier belongs to. Any other text is refused, with an error whose
    /// message quotes the text as it was given.
    fn from_str(s: &str) -> (parsed: Result<Region, ParseRegionError>)
        ensures
            parsed is Ok <==> Region::from_identifier(s@) is Some,
            parsed matches Ok(region) ==> Region::from_identifier(s@) == Some(region),
            parsed matches Err(error) ==> error@ == ParseRegionError::message_for(s@),
    {
        if str_eq(s, "ap-northeast-1") {
            Ok(Region::ApNortheast1)
        } else if str_eq(s, "ap-southeast-1") {
            Ok(Region::ApSoutheast1)
        } else if str_eq(s, "ap-southeast-2") {
            Ok(Region::ApSoutheast2)
        } else if str_eq(s, "eu-central-1") {
            Ok(Region::EuCentral1)
        } else if str_eq(s, "eu-west-1") {
            Ok(Region::EuWest1)
        } else if str_eq(s, "sa-east-1") {
            Ok(Region::SaEast1)
        } else if str_eq(s, "us-east-1") {
            Ok(Region::UsEast1)
        } else if str_eq(s, "us-west-1") {
            Ok(Region::UsWest1)
        } else if str_eq(s, "us-west-2") {
            Ok(Region::UsWest2)
        } else if str_eq(s, "cn-north-1") {
            Ok(Region::CnNorth1)
        } else {
            Err(ParseRegionError::new(s))
        }
    }
}

impl Region {
    /// Reading is exact: a text stands for a region if and only if it is
    /// that region's identifier, character for character. So every
    /// identifier is read as one region and no other.
    pub proof fn lemma_from_identifier_exact(text: Seq<char>, region: Region)
        ensures
            Region::from_identifier(text) == Some(region) <==> text == region.identifier(),
    {
        if text == region.identifier() {
            reveal_strlit("ap-northeast-1");
            reveal_strlit("ap-southeast-1");
            reveal_strlit("ap-southeast-2");
            reveal_strlit("eu-central-1");
            reveal_strlit("eu-west-1");
            reveal_strlit("sa-east-1");
            reveal_strlit("us-east-1");
            reveal_strlit("us-west-1");
            reveal_strlit("us-west-2");
            reveal_strlit("cn-north-1");
            // Its length, its first, its fourth and its last character tell an
            // identifier from the nine others.
            let last: int = text.len() - 1;
            assert(text.len() == region.identifier().len());
            assert(text[0] == region.identifier()[0]);
            assert(text[3] == region.identifier()[3]);
            assert(text[last] == region.identifier()[last]);
        }
    }

    /// Writing a region and reading the result gives the region back.
    pub proof fn lemma_round_trip(region: Region)
        ensures
            Region::from_identifier(region.identifier()) == Some(region),
    {
        Region::lemma_from_identifier_exact(region.identifier(), region);
    }

    /// Two different regions never share an identifier.
    pub proof fn lemma_identifier_injective(a: Region, b: Region)
        requires
            a != b,
        ensures
            a.identifier() != b.identifier(),
    {
        Region::lemma_round_trip(a);
        Region::lemma_round_trip(b);
    }

    /// Identifiers are written in lower case: a text that holds anything but
    /// small letters, digits and hyphens, be it a capital letter or a blank,
    /// stands for no region.
    pub proof fn lemma_identifier_chars(text: Seq<char>)
        requires
            Region::from_identifier(text) is Some,
        ensures
            forall|i: int| 0 <= i < text.len() ==> is_identifier_char(#[trigger] text[i]),
    {
        reveal_strlit("ap-northeast-1");
        reveal_strlit("ap-southeast-1");
        reveal_strlit("ap-southeast-2");
        reveal_strlit("eu-central-1");
        reveal_strlit("eu-west-1");
        reveal_strlit("sa-east-1");
        reveal_strlit("us-east-1");
        reveal_strlit("us-west-1");
        reveal_strlit("us-west-2");
        reveal_strlit("cn-north-1");
    }
}

impl View for ParseRegionError {
    type V = Seq<char>;

    /// The message of the error.
    closed spec fn view(&self) -> Seq<char> {
        self.message@
    }
}

impl ParseRegionError {
    /// The message that refuses `input` as a region: a fixed opening, then
    /// the input, unchanged.
    pub open spec fn message_for(input: Seq<char>) -> Seq<char> {
        "Not a valid AWS region: "@ + input
    }

    /// The error for a text that is the identifier of no region.
    pub fn new(input: &str) -> (error: Self)
        ensures
            error@ == Self::message_for(input@),
    {
        let mut message = "Not a valid AWS region: ".to_owned();
        message.append(input);
        ParseRegionError { message }
    }

    /// The message, as the error holds it.
    pub fn description(&self) -> (text: &str)
        ensures
            text@ == self@,
    {
        self.message.as_str()
    }

    /// The message as a string of its own.
    pub fn to_string(&self) -> (text: String)
        ensures
            text@ == self@,
    {
        self.message.clone()
    }
}

impl PartialEq for ParseRegionError {
    /// Two errors are equal when their messages are.
    fn eq(&self, other: &Self) -> (equal: bool) {
        self.message == other.message
    }
}

impl vstd::std_specs::cmp::PartialEqSpecImpl for ParseRegionError {
    open spec fn obeys_eq_spec() -> bool {
        true
    }

    open spec fn eq_spec(&self, other: &Self) -> bool {
        self@ == other@
    }
}

} // verus!
