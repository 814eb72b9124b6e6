use vstd::prelude::*;

use crate::text::{decimal_of, i32_text, parse_i32, parse_i32_spec};

verus! {

/// A user's identity: a numeric id or a text slug.
pub enum Uid {
    Nid(i32),
    Sid(String),
}

/// The mathematical value of a [`Uid`].
pub enum UidKey {
    Nid(i32),
    Sid(Seq<char>),
}

impl View for Uid {
    type V = UidKey;

    open spec fn view(&self) -> UidKey {
        match self {
            Uid::Nid(n) => UidKey::Nid(*n),
            Uid::Sid(s) => UidKey::Sid(s@),
        }
    }
}

/// The identity that a token names: a number when it parses as one, else a slug.
pub open spec fn uid_of(t: Seq<char>) -> UidKey {
    match parse_i32_spec(t) {
        Some(n) => UidKey::Nid(n),
        None => UidKey::Sid(t),
    }
}

/// The text form of an identity.
pub open spec fn uid_text(k: UidKey) -> Seq<char> {
    match k {
        UidKey::Nid(n) => decimal_of(n as int),
        UidKey::Sid(s) => s,
    }
}

impl Uid {
    /// Reads a token as a numeric id when it parses as one, else as a slug.
    pub fn from_str(s: &str) -> (r: Uid)
        ensures
            r@ == uid_of(s@),
    {
        match parse_i32(s) {
            Some(n) => Uid::Nid(n),
            None => Uid::Sid(s.to_owned()),
        }
    }

    pub fn is_nid(&self) -> (r: bool)
        ensures
            r == (self@ is Nid),
    {
        match self {
            Uid::Nid(_) => true,
            Uid::Sid(_) => false,
        }
    }

    pub fn is_sid(&self) -> (r: bool)
        ensures
            r == (self@ is Sid),
    {
        match self {
            Uid::Nid(_) => false,
            Uid::Sid(_) => true,
        }
    }

    pub fn to_string(&self) -> (r: String)
        ensures
            r@ == uid_text(self@),
    {
        match self {
            Uid::Nid(n) => i32_text(*n),
            Uid::Sid(s) => s.clone(),
        }
    }
}

impl Clone for Uid {
    fn clone(&self) -> (r: Self)
        ensures
            r == *self,
    {
        match self {
            Uid::Nid(n) => Uid::Nid(*n),
            Uid::Sid(s) => Uid::Sid(s.clone()),
        }
    }
}

impl PartialEq for Uid {
    fn eq(&self, other: &Uid) -> (r: bool) {
        match (self, other) {
            (Uid::Nid(a), Uid::Nid(b)) => *a == *b,
            (Uid::Sid(a), Uid::Sid(b)) => a.eq(b),
            _ => false,
        }
    }
}

impl vstd::std_specs::cmp::PartialEqSpecImpl for Uid {
    open spec fn obeys_eq_spec() -> bool {
        true
    }

    open spec fn eq_spec(&self, other: &Uid) -> bool {
        self@ == other@
    }
}

} // verus!
