use vstd::prelude::*;
use std::collections::VecDeque;

verus! {

/// A one-to-one transformation attached to a pipeline stage. `apply` is
/// what `call` computes, so a transformation has no hidden state. An
/// implementation written outside verified code gives `apply` the same body
/// as `call`.
pub trait MapFn<T> {
    type Output;

    spec fn apply(&self, x: T) -> Self::Output;

    fn call(&self, x: T) -> (r: Self::Output)
        ensures
            r == self.apply(x),
    ;
}

/// A pull-based pipeline stage: each `next` yields the next record, or
/// `None` once the stream is exhausted, and `None` again on every later call.
pub trait RDDBase: Sized {
    type Item;

    /// The records this stage has still to yield, in order.
    spec fn pending(&self) -> Seq<Self::Item>;

    fn next(&mut self) -> (r: Option<Self::Item>)
        ensures
            old(self).pending().len() == 0 ==> r is None && final(self).pending().len() == 0,
            old(self).pending().len() > 0 ==> r == Some(old(self).pending()[0])
                && final(self).pending() == old(self).pending().drop_first(),
    ;

    /// Attaches `mapfn` to this stage; the new stage yields the image of
    /// each record of this one, in order.
    fn map<F: MapFn<Self::Item>>(self, mapfn: F) -> (r: MapRDD<F, Self>)
        ensures
            r.mapfn == mapfn,
            r.source == self,
    {
        MapRDD { mapfn, source: self }
    }
}

/// A stage that applies a transformation to each record of its upstream.
pub struct MapRDD<F, R> {
    pub mapfn: F,
    pub source: R,
}

impl<F: MapFn<R::Item>, R: RDDBase> RDDBase for MapRDD<F, R> {
    type Item = F::Output;

    open spec fn pending(&self) -> Seq<F::Output> {
        self.source.pending().map_values(|x: R::Item| self.mapfn.apply(x))
    }

    fn next(&mut self) -> (r: Option<F::Output>) {
        match self.source.next() {
            Some(x) => Some(self.mapfn.call(x)),
            None => None,
        }
    }
}

/// Pulls records from `stage` until end-of-stream and returns them in the
/// order they came.
pub fn drain<S: RDDBase>(stage: &mut S) -> (r: Vec<S::Item>)
    ensures
        r@ == old(stage).pending(),
        final(stage).pending().len() == 0,
{
    let ghost all = stage.pending();
    let mut out: Vec<S::Item> = Vec::new();
    loop
        invariant
            out@ + stage.pending() == all,
        ensures
            out@ == all,
            stage.pending().len() == 0,
        decreases stage.pending().len(),
    {
        let ghost before = stage.pending();
        match stage.next() {
            Some(x) => {
                out.push(x);
                assert(out@ + stage.pending() =~= all) by {
                    assert(before =~= seq![x] + stage.pending());
                };
            },
            None => {
                assert(out@ =~= all);
                break;
            },
        }
    }
    out
}

/// A mapping stage yields exactly as many records as its upstream, each the
/// image under the stage's transformation of the upstream record at the
/// same position. Applied at each level of a chain, this gives the records
/// of any number of stacked stages.
pub proof fn lemma_map_stage<F: MapFn<R::Item>, R: RDDBase>(s: MapRDD<F, R>)
    ensures
        s.pending().len() == s.source.pending().len(),
        forall|i: int|
            0 <= i < s.pending().len() ==> s.pending()[i] == s.mapfn.apply(
                #[trigger] s.source.pending()[i],
            ),
{
}

/// Two stacked mapping stages yield as many records as the source beneath
/// them, each the result of applying the first attached transformation and
/// then the second to the source record at the same position.
pub proof fn lemma_two_stages<F: MapFn<R::Item>, G: MapFn<F::Output>, R: RDDBase>(
    s: MapRDD<G, MapRDD<F, R>>,
)
    ensures
        s.pending().len() == s.source.source.pending().len(),
        forall|i: int|
            0 <= i < s.pending().len() ==> s.pending()[i] == s.mapfn.apply(
                s.source.mapfn.apply(#[trigger] s.source.source.pending()[i]),
            ),
{
}

/// A source stage over the text records of one named input, yielded in
/// their order of appearance.
pub struct TextFileRDD {
    pub filename: String,
    pub lines: VecDeque<String>,
}

impl TextFileRDD {
    /// A source named `filename` whose records are `lines`, in order.
    pub fn new(filename: String, lines: Vec<String>) -> (r: TextFileRDD)
        ensures
            r.filename == filename,
            r.pending() == lines@,
    {
        let mut lines = lines;
        let ghost all = lines@;
        let mut queue: VecDeque<String> = VecDeque::new();
        while lines.len() > 0
            invariant
                lines@ + queue@ == all,
            decreases lines.len(),
        {
            let last = lines.pop().unwrap();
            queue.push_front(last);
        }
        assert(queue@ =~= all);
        TextFileRDD { filename, lines: queue }
    }
}

impl RDDBase for TextFileRDD {
    type Item = String;

    open spec fn pending(&self) -> Seq<String> {
        self.lines@
    }

    fn next(&mut self) -> (r: Option<String>) {
        self.lines.pop_front()
    }
}

/// The facade that opens source stages.
pub struct FlareContext;

impl FlareContext {
    /// A source stage over the records `lines` of the input `filename`.
    #[allow(non_snake_case)]
    pub fn textFile(&self, filename: String, lines: Vec<String>) -> (r: TextFileRDD)
        ensures
            r.filename == filename,
            r.pending() == lines@,
    {
        TextFileRDD::new(filename, lines)
    }
}

/// The transformation that maps a text record to its length in bytes.
pub struct LineLength;

impl MapFn<String> for LineLength {
    type Output = usize;

    open spec fn apply(&self, x: String) -> usize {
        vstd::utf8::encode_utf8(x@).len() as usize
    }

    fn call(&self, x: String) -> (r: usize) {
        x.as_str().len()
    }
}

/// A no-op that takes two integers.
pub fn foo(_a: i32, _b: i32) {
}

} // verus!
