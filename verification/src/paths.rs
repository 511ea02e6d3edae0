//! Paths, as names joined to a starting point that is not looked into.

use vstd::prelude::*;

verus! {

/// The kinds of operating system that the launcher tells apart.
#[derive(Clone, Copy, Debug, PartialEq, Eq, Structural)]
pub enum Platform {
    MacOs,
    Linux,
    Windows,
    /// Anything else; it is treated as a Unix.
    Other,
}

impl Platform {
    /// Whether this is Windows.
    pub fn is_windows(self) -> (r: bool)
        ensures
            r == (self == Platform::Windows),
    {
        match self {
            Platform::Windows => true,
            _ => false,
        }
    }
}

/// The path that comes of joining `names`, one after the other, to `base`.
#[derive(Debug)]
pub struct Joined<B> {
    pub base: B,
    pub names: Vec<String>,
}

impl<B> View for Joined<B> {
    type V = (B, Seq<Seq<char>>);

    open spec fn view(&self) -> (B, Seq<Seq<char>>) {
        (self.base, self.names.deep_view())
    }
}

impl<B> Joined<B> {
    /// `base` itself.
    pub fn at(base: B) -> (r: Self)
        ensures
            r@ == (base, Seq::<Seq<char>>::empty()),
    {
        let names: Vec<String> = Vec::new();
        assert(names.deep_view() =~= Seq::<Seq<char>>::empty());
        Joined { base, names }
    }

    /// This path with one more name joined to it.
    pub fn join(self, name: &str) -> (r: Self)
        ensures
            r@ == (self@.0, self@.1.push(name@)),
    {
        let Joined { base, names } = self;
        let mut names = names;
        let ghost before = names.deep_view();
        names.push(name.to_string());
        assert(names.deep_view() =~= before.push(name@));
        Joined { base, names }
    }
}

} // verus!
