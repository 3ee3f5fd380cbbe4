//! The failure value of the tunnel: an ordered chain of causes.

use vstd::prelude::*;

verus! {

/// A failure with its layers of context. The chain is never empty; its first
/// entry is the outermost layer, its last entry the root cause.
#[derive(Debug, PartialEq, Eq)]
pub struct Error {
    chain: Vec<String>,
}

impl View for Error {
    type V = Seq<Seq<char>>;

    closed spec fn view(&self) -> Seq<Seq<char>> {
        self.chain.deep_view()
    }
}

/// The layers of `chain` written on one line, outermost first, each followed
/// by `": "` and the layers below it.
pub open spec fn joined(chain: Seq<Seq<char>>) -> Seq<char>
    decreases chain.len(),
{
    if chain.len() == 0 {
        Seq::empty()
    } else if chain.len() == 1 {
        chain[0]
    } else {
        chain[0] + ": "@ + joined(chain.skip(1))
    }
}

impl Error {
    #[verifier::type_invariant]
    spec fn inv(&self) -> bool {
        self.chain@.len() > 0
    }

    /// A failure with a single layer.
    pub fn msg(message: &str) -> (e: Error)
        ensures
            e@ == seq![message@],
    {
        let mut chain: Vec<String> = Vec::new();
        chain.push(message.to_owned());
        assert(chain.deep_view() =~= seq![message@]);
        Error { chain }
    }

    /// The same failure under one more layer, which becomes the outermost.
    pub fn context(self, context: &str) -> (e: Error)
        ensures
            e@ == seq![context@] + self@,
            e@.len() >= 2,
    {
        proof {
            use_type_invariant(&self);
        }
        let mut chain = self.chain;
        let ghost before = chain.deep_view();
        chain.insert(0, context.to_owned());
        assert(chain.deep_view() =~= seq![context@] + before);
        Error { chain }
    }

    /// The number of layers, which is at least one.
    pub fn depth(&self) -> (n: usize)
        ensures
            n == self@.len(),
            n > 0,
    {
        proof {
            use_type_invariant(self);
        }
        self.chain.len()
    }

    /// The layer at `index`, counted from the outermost, if there is one.
    pub fn layer(&self, index: usize) -> (s: Option<&str>)
        ensures
            index < self@.len() ==> (s matches Some(text) && text@ == self@[index as int]),
            index >= self@.len() ==> s is None,
    {
        if index < self.chain.len() {
            Some(self.chain[index].as_str())
        } else {
            None
        }
    }

    /// The outermost layer, the only one that a peer is ever told.
    pub fn outermost(&self) -> (s: &str)
        ensures
            self@.len() > 0,
            s@ == self@[0],
    {
        proof {
            use_type_invariant(self);
        }
        self.chain[0].as_str()
    }

    /// The layers from the outermost to the root cause.
    pub fn chain(&self) -> (layers: Vec<String>)
        ensures
            layers.deep_view() == self@,
    {
        let mut layers: Vec<String> = Vec::new();
        let mut i: usize = 0;
        while i < self.chain.len()
            invariant
                i <= self.chain@.len(),
                layers.deep_view() =~= self.chain.deep_view().take(i as int),
            decreases self.chain@.len() - i,
        {
            let ghost before = layers.deep_view();
            layers.push(self.chain[i].clone());
            assert(layers.deep_view() =~= before.push(self.chain@[i as int]@));
            i += 1;
        }
        assert(self.chain.deep_view().take(i as int) =~= self.chain.deep_view());
        layers
    }

    /// The whole chain on one line.
    pub fn report(&self) -> (line: String)
        ensures
            line@ == joined(self@),
    {
        proof {
            use_type_invariant(self);
        }
        let n = self.chain.len();
        let mut line: String = self.chain[n - 1].clone();
        let mut i: usize = n - 1;
        assert(self@.skip(i as int) =~= seq![self@[i as int]]);
        while i > 0
            invariant
                n == self.chain@.len(),
                i < n,
                line@ == joined(self@.skip(i as int)),
            decreases i,
        {
            i -= 1;
            let mut longer: String = self.chain[i].clone();
            longer.append(": ");
            longer.append(line.as_str());
            proof {
                let rest = self@.skip(i as int);
                assert(rest.len() >= 2);
                assert(rest[0] == self@[i as int]);
                assert(rest.skip(1) =~= self@.skip(i + 1));
            }
            line = longer;
        }
        assert(self@.skip(0) =~= self@);
        line
    }
}

impl Clone for Error {
    fn clone(&self) -> (e: Error)
        ensures
            e@ == self@,
    {
        proof {
            use_type_invariant(self);
        }
        let chain = self.chain();
        assert(chain@.len() == chain.deep_view().len());
        Error { chain }
    }
}

/// The result `r`, a failure in it under one more layer.
pub fn with_context<T>(r: Result<T, Error>, context: &str) -> (out: Result<T, Error>)
    ensures
        r matches Ok(value) ==> out == Ok::<T, Error>(value),
        r matches Err(e) ==> (out matches Err(outer) && outer@ == seq![context@] + e@
            && outer@.len() >= 2),
{
    match r {
        Ok(value) => Ok(value),
        Err(e) => Err(e.context(context)),
    }
}

} // verus!
