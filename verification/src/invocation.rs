//! Commands to run: a program and its arguments.

use crate::paths::Joined;
use vstd::prelude::*;

verus! {

/// A program or an argument: plain text, a path that the caller holds, or a
/// path below such a path.
#[derive(Debug)]
pub enum Arg<'a, B> {
    Text(String),
    Path(&'a B),
    Below(Joined<&'a B>),
}

/// What an `Arg` says.
#[verifier::ext_equal]
pub enum ArgView<B> {
    Text(Seq<char>),
    Path(B),
    Below(B, Seq<Seq<char>>),
}

impl<'a, B> View for Arg<'a, B> {
    type V = ArgView<B>;

    open spec fn view(&self) -> ArgView<B> {
        match self {
            Arg::Text(t) => ArgView::Text(t@),
            Arg::Path(p) => ArgView::Path(**p),
            Arg::Below(j) => ArgView::Below(*j.base, j.names.deep_view()),
        }
    }
}

impl<'a, B> DeepView for Arg<'a, B> {
    type V = ArgView<B>;

    open spec fn deep_view(&self) -> ArgView<B> {
        self.view()
    }
}

/// A command: a program and the arguments it is given, in order.
#[derive(Debug)]
pub struct Invocation<'a, B> {
    pub program: Arg<'a, B>,
    pub args: Vec<Arg<'a, B>>,
}

/// What an `Invocation` says.
#[verifier::ext_equal]
pub struct InvocationView<B> {
    pub program: ArgView<B>,
    pub args: Seq<ArgView<B>>,
}

impl<'a, B> View for Invocation<'a, B> {
    type V = InvocationView<B>;

    open spec fn view(&self) -> InvocationView<B> {
        InvocationView { program: self.program@, args: self.args.deep_view() }
    }
}

impl<'a, B> DeepView for Invocation<'a, B> {
    type V = InvocationView<B>;

    open spec fn deep_view(&self) -> InvocationView<B> {
        self.view()
    }
}

/// The arguments that are the given texts.
pub open spec fn texts<B>(list: Seq<Seq<char>>) -> Seq<ArgView<B>> {
    list.map_values(|t: Seq<char>| ArgView::<B>::Text(t))
}

impl<'a, B> Invocation<'a, B> {
    /// The program at a path, without arguments.
    pub fn of_path(path: &'a B) -> (r: Self)
        ensures
            r@ == (InvocationView { program: ArgView::Path(*path), args: seq![] }),
    {
        let args: Vec<Arg<'a, B>> = Vec::new();
        assert(args.deep_view() =~= Seq::<ArgView<B>>::empty());
        Invocation { program: Arg::Path(path), args }
    }

    /// The program of a name, without arguments.
    pub fn of_name(name: &str) -> (r: Self)
        ensures
            r@ == (InvocationView::<B> { program: ArgView::Text(name@), args: seq![] }),
    {
        let args: Vec<Arg<'a, B>> = Vec::new();
        assert(args.deep_view() =~= Seq::<ArgView<B>>::empty());
        Invocation { program: Arg::Text(name.to_string()), args }
    }

    /// The same command with one more argument.
    pub fn arg(self, arg: Arg<'a, B>) -> (r: Self)
        ensures
            r@ == (InvocationView { program: self@.program, args: self@.args.push(arg@) }),
    {
        let Invocation { program, args } = self;
        let mut args = args;
        let ghost before = args.deep_view();
        args.push(arg);
        assert(args.deep_view() =~= before.push(arg@));
        Invocation { program, args }
    }

    /// The same command with a text as one more argument.
    pub fn text(self, text: &str) -> (r: Self)
        ensures
            r@ == (InvocationView {
                program: self@.program,
                args: self@.args.push(ArgView::Text(text@)),
            }),
    {
        self.arg(Arg::Text(text.to_string()))
    }

    /// The same command with a path as one more argument.
    pub fn path(self, path: &'a B) -> (r: Self)
        ensures
            r@ == (InvocationView {
                program: self@.program,
                args: self@.args.push(ArgView::Path(*path)),
            }),
    {
        self.arg(Arg::Path(path))
    }

    /// The same command with the texts of a list as further arguments.
    pub fn text_list(self, list: &Vec<String>) -> (r: Self)
        ensures
            r@ == (InvocationView {
                program: self@.program,
                args: self@.args + texts::<B>(list.deep_view()),
            }),
    {
        let ghost first = self@.args;
        let ghost all = texts::<B>(list.deep_view());
        let Invocation { program, args } = self;
        let mut args = args;
        let mut i: usize = 0;
        assert(args.deep_view() =~= first + all.take(0));
        while i < list.len()
            invariant
                0 <= i <= list.len(),
                all == texts::<B>(list.deep_view()),
                args.deep_view() == first + all.take(i as int),
            decreases list.len() - i,
        {
            let ghost before = args.deep_view();
            args.push(Arg::Text(list[i].clone()));
            proof {
                assert(args.deep_view() =~= before.push(ArgView::Text(list[i as int]@)));
                assert(all[i as int] == ArgView::<B>::Text(list[i as int]@));
                assert(first + all.take(i + 1) =~= (first + all.take(i as int)).push(all[i as int]));
            }
            i += 1;
        }
        assert(all.take(list.len() as int) =~= all);
        Invocation { program, args }
    }
}

} // verus!
