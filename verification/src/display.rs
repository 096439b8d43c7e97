//! Small pieces of text that the Observatory's panels show.
use vstd::prelude::*;

use crate::text::{copy_str, decimal, decimal_string, push_str};

verus! {

/// The familiars that wander across the Observatory's window.
#[derive(Debug, Clone, Copy, PartialEq, Eq, Structural)]
pub enum FamiliarKind {
    Cat,
    Bat,
    Bunny,
    Puppy,
}

impl FamiliarKind {
    pub open spec fn spec_key(self) -> Seq<char> {
        match self {
            FamiliarKind::Cat => "cat"@,
            FamiliarKind::Bat => "bat"@,
            FamiliarKind::Bunny => "bunny"@,
            FamiliarKind::Puppy => "puppy"@,
        }
    }

    /// The name under which a familiar's state is remembered.
    pub fn key(self) -> (r: &'static str)
        ensures
            r@ == self.spec_key(),
    {
        match self {
            FamiliarKind::Cat => "cat",
            FamiliarKind::Bat => "bat",
            FamiliarKind::Bunny => "bunny",
            FamiliarKind::Puppy => "puppy",
        }
    }
}

/// `<value> <suffix>`, or `N/A` where there is no value.
pub fn optional_u32(value: Option<u32>, suffix: &str) -> (r: String)
    ensures
        r@ == match value {
            Some(v) => decimal(v as nat) + " "@ + suffix@,
            None => "N/A"@,
        },
{
    match value {
        Some(v) => {
            let mut r = decimal_string(v as u64);
            push_str(&mut r, " ");
            push_str(&mut r, suffix);
            r
        },
        None => copy_str("N/A"),
    }
}

} // verus!
