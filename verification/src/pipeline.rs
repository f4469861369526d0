//! The conversion pipeline: hooks before the conversion, the conversion,
//! hooks after it.

use vstd::prelude::*;
use crate::convention::Principal;
use crate::fns::{render, rendered};

verus! {

/// A hook that rewrites the source before it is converted. Its result
/// depends on the hook, the string and the target convention alone: what
/// is proved of a pipeline holds only with hooks that keep to this.
pub trait PreConvert {
    /// What the hook makes of `source`. A hook that does not say is held to
    /// be some function of its three arguments.
    open spec fn prepared(&self, source: Seq<char>, principal: Principal) -> Seq<char> {
        arbitrary::<spec_fn(&Self, Seq<char>, Principal) -> Seq<char>>()(self, source, principal)
    }

    fn convert(&self, source: &str, principal: Principal) -> (r: String)
        ensures
            r@ == self.prepared(source@, principal),
    ;
}

/// A hook that rewrites the converted string. Its result depends on the
/// hook, the string and the target convention alone: what is proved of a
/// pipeline holds only with hooks that keep to this.
pub trait PostConvert {
    /// What the hook makes of `source`. A hook that does not say is held to
    /// be some function of its three arguments.
    open spec fn amended(&self, source: Seq<char>, principal: Principal) -> Seq<char> {
        arbitrary::<spec_fn(&Self, Seq<char>, Principal) -> Seq<char>>()(self, source, principal)
    }

    fn convert(&self, source: &str, principal: Principal) -> (r: String)
        ensures
            r@ == self.amended(source@, principal),
    ;
}

/// `s` after the first `n` of the hooks `pres`, taken in order.
pub open spec fn after_pres(
    pres: Seq<Box<dyn PreConvert>>,
    n: int,
    s: Seq<char>,
    to: Principal,
) -> Seq<char>
    decreases n,
{
    if n <= 0 {
        s
    } else {
        pres[n - 1].prepared(after_pres(pres, n - 1, s, to), to)
    }
}

/// `s` after the first `n` of the hooks `posts`, taken in order.
pub open spec fn after_posts(
    posts: Seq<Box<dyn PostConvert>>,
    n: int,
    s: Seq<char>,
    to: Principal,
) -> Seq<char>
    decreases n,
{
    if n <= 0 {
        s
    } else {
        posts[n - 1].amended(after_posts(posts, n - 1, s, to), to)
    }
}

/// What the pipeline makes of `source`: all of `pres` in order, the
/// conversion to `to`, all of `posts` in order.
pub open spec fn converted(
    source: Seq<char>,
    to: Principal,
    pres: Seq<Box<dyn PreConvert>>,
    posts: Seq<Box<dyn PostConvert>>,
) -> Seq<char> {
    after_posts(
        posts,
        posts.len() as int,
        rendered(after_pres(pres, pres.len() as int, source, to), to),
        to,
    )
}

/// A source, the convention it is to be converted to, and the hooks to run
/// before and after the conversion.
pub struct Parameter {
    source: String,
    to: Principal,
    pres: Vec<Box<dyn PreConvert>>,
    posts: Vec<Box<dyn PostConvert>>,
}

impl Parameter {
    /// The characters of the source.
    pub closed spec fn source(&self) -> Seq<char> {
        self.source@
    }

    /// The convention to convert to.
    pub closed spec fn target(&self) -> Principal {
        self.to
    }

    /// The hooks that run before the conversion, in order.
    pub closed spec fn pres(&self) -> Seq<Box<dyn PreConvert>> {
        self.pres@
    }

    /// The hooks that run after the conversion, in order.
    pub closed spec fn posts(&self) -> Seq<Box<dyn PostConvert>> {
        self.posts@
    }

    /// A pipeline without hooks.
    pub fn new(source: &str, to: Principal) -> (r: Self)
        ensures
            r.source() == source@,
            r.target() == to,
            r.pres().len() == 0,
            r.posts().len() == 0,
    {
        Self { source: source.to_owned(), to, posts: Vec::new(), pres: Vec::new() }
    }

    /// The pipeline with `convert` as its last hook before the conversion.
    pub fn add_pre_convert(self, convert: Box<dyn PreConvert>) -> (r: Self)
        ensures
            r.pres() == self.pres().push(convert),
            r.pres().len() == self.pres().len() + 1,
            r.pres()[self.pres().len() as int] === convert,
            forall|i: int| 0 <= i < self.pres().len() ==> r.pres()[i] == self.pres()[i],
            r.source() == self.source(),
            r.target() == self.target(),
            r.posts() == self.posts(),
    {
        let mut this = self;
        this.pres.push(convert);
        proof {
            vstd::seq::axiom_seq_push_len(self.pres(), convert);
            vstd::seq::axiom_seq_push_index_same(self.pres(), convert, self.pres().len() as int);
            assert forall|i: int| 0 <= i < self.pres().len() implies this.pres()[i]
                == self.pres()[i] by {
                vstd::seq::axiom_seq_push_index_different(self.pres(), convert, i);
            }
        }
        this
    }

    /// The pipeline with `convert` as its last hook after the conversion.
    pub fn add_post_convert(self, convert: Box<dyn PostConvert>) -> (r: Self)
        ensures
            r.posts() == self.posts().push(convert),
            r.posts().len() == self.posts().len() + 1,
            r.posts()[self.posts().len() as int] === convert,
            forall|i: int| 0 <= i < self.posts().len() ==> r.posts()[i] == self.posts()[i],
            r.source() == self.source(),
            r.target() == self.target(),
            r.pres() == self.pres(),
    {
        let mut this = self;
        this.posts.push(convert);
        proof {
            vstd::seq::axiom_seq_push_len(self.posts(), convert);
            vstd::seq::axiom_seq_push_index_same(self.posts(), convert, self.posts().len() as int);
            assert forall|i: int| 0 <= i < self.posts().len() implies this.posts()[i]
                == self.posts()[i] by {
                vstd::seq::axiom_seq_push_index_different(self.posts(), convert, i);
            }
        }
        this
    }

    /// The pipeline with another target.
    pub fn change_principal(self, to: Principal) -> (r: Self)
        ensures
            r.target() == to,
            r.source() == self.source(),
            r.pres() == self.pres(),
            r.posts() == self.posts(),
    {
        let mut this = self;
        this.to = to;
        this
    }

    /// Runs the pipeline.
    pub fn run(&self) -> (r: String)
        ensures
            r@ == converted(self.source(), self.target(), self.pres(), self.posts()),
    {
        let mut result = self.source.clone();
        let mut i: usize = 0;
        while i < self.pres.len()
            invariant
                i <= self.pres.len(),
                result@ == after_pres(self.pres@, i as int, self.source@, self.to),
            decreases self.pres.len() - i,
        {
            result = self.pres[i].convert(result.as_str(), self.to);
            i += 1;
        }
        result = render(result.as_str(), self.to);
        let ghost middle = result@;
        let mut k: usize = 0;
        while k < self.posts.len()
            invariant
                k <= self.posts.len(),
                result@ == after_posts(self.posts@, k as int, middle, self.to),
            decreases self.posts.len() - k,
        {
            result = self.posts[k].convert(result.as_str(), self.to);
            k += 1;
        }
        result
    }
}

/// Runs the pipeline that `param` describes.
pub fn convert(param: &Parameter) -> (r: String)
    ensures
        r@ == converted(param.source(), param.target(), param.pres(), param.posts()),
{
    param.run()
}

} // verus!
