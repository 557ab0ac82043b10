use vstd::prelude::*;

use crate::error::Error;

verus! {

/// A function that rewrites a dataset in place, given a seed.
///
/// Every closure `Fn(&mut [T], u64)` is one.
pub trait TransformFn<T> {
    /// Whether the function can be called on the dataset behind `data` with `seed`.
    spec fn accepts(&self, data: &mut [T], seed: u64) -> bool;

    /// Whether a call of the function on `data` and `seed` may take the dataset behind
    /// `data` from what it holds to what it finally holds.
    spec fn rewrites(&self, data: &mut [T], seed: u64) -> bool;

    /// Rewrites `data` in place for `seed`, as the function does to a dataset that
    /// starts and ends with the same contents.
    fn apply(&self, data: &mut [T], seed: u64)
        requires
            forall|d: &mut [T]| d@ == old(data)@ ==> #[trigger] self.accepts(d, seed),
        ensures
            exists|r: &mut [T]|
                #[trigger] self.rewrites(r, seed) && r@ == old(data)@ && final(r)@ == final(data)@,
    ;
}

impl<T, F: Fn(&mut [T], u64)> TransformFn<T> for F {
    open spec fn accepts(&self, data: &mut [T], seed: u64) -> bool {
        call_requires(*self, (data, seed))
    }

    open spec fn rewrites(&self, data: &mut [T], seed: u64) -> bool {
        call_ensures(*self, (data, seed), ())
    }

    fn apply(&self, data: &mut [T], seed: u64) {
        proof {
            assert forall|d: &mut [T]| d@ == data@ implies #[trigger] call_requires(
                *self,
                (d, seed),
            ) by {
                assert(self.accepts(d, seed));
            }
        }
        (self)(data, seed);
        proof {
            let r = choose|r: &mut [T]|
                #[trigger] call_ensures(*self, (r, seed), ()) && r@ == old(data)@ && final(r)@ == data@;
            assert(self.rewrites(r, seed));
        }
    }
}

/// A source of whole datasets, one per call.
///
/// Every iterator over `Vec<T>` is one, and so is a [`QueuedDatasets`].
pub trait DatasetIter<T> {
    /// The datasets still to be handed out, in order, where the source knows them
    /// ahead of time; `None` where it does not, as for an arbitrary iterator.
    spec fn pending(&self) -> Option<Seq<Vec<T>>>;

    /// Hands out the next dataset, or `None` when the source is exhausted.
    fn next_dataset(&mut self) -> (r: Option<Vec<T>>)
        ensures
            match old(self).pending() {
                Some(items) => if items.len() > 0 {
                    &&& r == Some(items[0])
                    &&& final(self).pending() == Some(items.drop_first())
                } else {
                    &&& r is None
                    &&& final(self).pending() == Some(items)
                },
                None => final(self).pending() is None,
            },
    ;
}

impl<T, I: Iterator<Item = Vec<T>>> DatasetIter<T> for I {
    open spec fn pending(&self) -> Option<Seq<Vec<T>>> {
        None
    }

    fn next_dataset(&mut self) -> Option<Vec<T>> {
        self.next()
    }
}

/// Datasets known ahead of time, handed out in order, each once.
pub struct QueuedDatasets<T> {
    /// The datasets still to be handed out, the next one last.
    rest: Vec<Vec<T>>,
}

impl<T> QueuedDatasets<T> {
    /// The datasets still to be handed out, in order.
    pub closed spec fn items(&self) -> Seq<Vec<T>> {
        Seq::new(self.rest@.len(), |i: int| self.rest@[self.rest@.len() - 1 - i])
    }

    /// A queue that hands out `datasets` in the order given.
    pub fn new(datasets: Vec<Vec<T>>) -> (queue: Self)
        ensures
            queue.items() == datasets@,
    {
        let mut datasets = datasets;
        let ghost all = datasets@;
        let mut rest: Vec<Vec<T>> = Vec::new();
        while datasets.len() > 0
            invariant
                datasets@ == all.subrange(0, datasets@.len() as int),
                rest@.len() + datasets@.len() == all.len(),
                forall|j: int| 0 <= j < rest@.len() ==> rest@[j] == all[all.len() - 1 - j],
            decreases datasets@.len(),
        {
            match datasets.pop() {
                Some(dataset) => rest.push(dataset),
                None => {},
            }
        }
        let queue = QueuedDatasets { rest };
        assert(queue.items() =~= all);
        queue
    }
}

impl<T> DatasetIter<T> for QueuedDatasets<T> {
    open spec fn pending(&self) -> Option<Seq<Vec<T>>> {
        Some(self.items())
    }

    fn next_dataset(&mut self) -> (r: Option<Vec<T>>) {
        let r = self.rest.pop();
        proof {
            if old(self).rest@.len() > 0 {
                assert(self.items() =~= old(self).items().drop_first());
            } else {
                assert(self.items() =~= old(self).items());
            }
        }
        r
    }
}

/// Whether `copy` is a clone of `original`, item by item.
pub open spec fn clones<T: Clone>(original: Seq<T>, copy: Seq<T>) -> bool {
    &&& copy.len() == original.len()
    &&& forall|i: int| 0 <= i < original.len() ==> cloned(#[trigger] original[i], copy[i])
}

/// Source of data for a BOAST run, either transformed from an original dataset
/// or generated from scratch.
#[verifier::reject_recursive_types(T)]
pub enum DataSource<T: Clone> {
    /// Original dataset with a transformation function to produce test datasets.
    ///
    /// The function rewrites a copy of the original in place, so every dataset
    /// has the length of the original.
    Transformed { original: Vec<T>, transform: Box<dyn TransformFn<T>> },
    /// An iterable data source that produces datasets from a provided iterator.
    /// The length of the datasets produced must be consistent across calls.
    Iterable { length: usize, iter: Box<dyn DatasetIter<T>> },
}

impl<T: Clone> DataSource<T> {
    /// The length of every dataset this source hands out.
    pub open spec fn spec_len(&self) -> nat {
        match self {
            DataSource::Transformed { original, .. } => original@.len(),
            DataSource::Iterable { length, .. } => *length as nat,
        }
    }

    /// Whether the source can hand out a dataset for `seed`: a transformed source's
    /// function must accept, with that seed, every copy of the original.
    pub open spec fn accepts(&self, seed: u64) -> bool {
        self is Transformed ==> forall|d: &mut [T]|
            clones(self->Transformed_original@, d@) ==> #[trigger] self->Transformed_transform.accepts(
                d,
                seed,
            )
    }

    /// Create a transformed data source from an original dataset and a transformation function.
    ///
    /// The transformation function takes in a mutable slice of the original data to transform,
    /// and a seed for any necessary randomization.
    pub fn transformed<F>(original: Vec<T>, transform: F) -> (src: Self)
        where
            F: Fn(&mut [T], u64) + 'static,
        ensures
            src is Transformed,
            src.spec_len() == original@.len(),
            src->Transformed_original == original,
            forall|data: &mut [T], seed: u64|
                #[trigger] src->Transformed_transform.rewrites(data, seed) == call_ensures(
                    transform,
                    (data, seed),
                    (),
                ),
            forall|data: &mut [T], seed: u64|
                #[trigger] src->Transformed_transform.accepts(data, seed) == call_requires(
                    transform,
                    (data, seed),
                ),
    {
        DataSource::Transformed { original, transform: Box::new(transform) }
    }

    /// Create a generated data source from a generator function and the length of
    /// datasets to produce.
    ///
    /// The generator function takes in a mutable slice of memory to write the generated
    /// data into (a dataset of `length` default values), and a seed for any necessary
    /// randomization.
    pub fn generated<F>(length: usize, generator: F) -> (src: Self)
        where
            F: Fn(&mut [T], u64) + 'static,
            T: Default,
        ensures
            src is Transformed,
            src.spec_len() == length,
            exists|value: T|
                call_ensures(T::default, (), value) && forall|i: int|
                    0 <= i < length ==> cloned(value, #[trigger] src->Transformed_original@[i]),
            forall|data: &mut [T], seed: u64|
                #[trigger] src->Transformed_transform.rewrites(data, seed) == call_ensures(
                    generator,
                    (data, seed),
                    (),
                ),
            forall|data: &mut [T], seed: u64|
                #[trigger] src->Transformed_transform.accepts(data, seed) == call_requires(
                    generator,
                    (data, seed),
                ),
    {
        let value = T::default();
        let container = vec![value; length];
        DataSource::Transformed { original: container, transform: Box::new(generator) }
    }

    /// Create an iterable data source from a provided iterator.
    ///
    /// An arbitrary iterator's datasets are not known ahead of time, so the source's
    /// pending datasets are unknown (`None`); each dataset handed out is the iterator's
    /// next item, and the source is exhausted when the iterator is.
    pub fn iterable<I>(length: usize, iter: I) -> (src: Self)
        where
            I: Iterator<Item = Vec<T>> + 'static,
        ensures
            src is Iterable,
            src.spec_len() == length,
            src->Iterable_iter.pending() is None,
    {
        DataSource::Iterable { length, iter: Box::new(iter) }
    }

    /// Create an iterable data source that hands out `datasets` in order, each once,
    /// and is then exhausted.
    pub fn from_datasets(length: usize, datasets: Vec<Vec<T>>) -> (src: Self)
        where
            T: 'static,
        ensures
            src is Iterable,
            src.spec_len() == length,
            src->Iterable_iter.pending() == Some(datasets@),
    {
        DataSource::Iterable { length, iter: Box::new(QueuedDatasets::new(datasets)) }
    }

    /// Get the length of the datasets produced by this data source.
    pub fn len(&self) -> (n: usize)
        ensures
            n == self.spec_len(),
    {
        match self {
            DataSource::Transformed { original, .. } => original.len(),
            DataSource::Iterable { length, .. } => *length,
        }
    }

    /// Check if the data source produces empty datasets.
    pub fn is_empty(&self) -> (empty: bool)
        ensures
            empty == (self.spec_len() == 0),
    {
        self.len() == 0
    }

    /// Get the next dataset to test, using the provided seed for any necessary
    /// transformation or generation.
    ///
    /// Returns an error only if the data source is an exhausted iterator.
    pub fn get_data(&mut self, seed: u64) -> (r: Result<Vec<T>, Error>)
        requires
            old(self).accepts(seed),
        ensures
            final(self).spec_len() == old(self).spec_len(),
            *old(self) is Transformed ==> {
                &&& *final(self) == *old(self)
                &&& r is Ok
                &&& exists|d: &mut [T]|
                    #[trigger] old(self)->Transformed_transform.rewrites(d, seed) && clones(
                        old(self)->Transformed_original@,
                        d@,
                    ) && final(d)@ == r->Ok_0@
            },
            *old(self) is Iterable ==> {
                &&& *final(self) is Iterable
                &&& final(self)->Iterable_length == old(self)->Iterable_length
                &&& match old(self)->Iterable_iter.pending() {
                    Some(items) => if items.len() > 0 {
                        &&& r == Ok::<Vec<T>, Error>(items[0])
                        &&& final(self)->Iterable_iter.pending() == Some(items.drop_first())
                    } else {
                        &&& r == Err::<Vec<T>, Error>(Error::DataSourceExhausted)
                        &&& final(self)->Iterable_iter.pending() == Some(items)
                    },
                    None => final(self)->Iterable_iter.pending() is None,
                }
            },
            r is Err ==> r == Err::<Vec<T>, Error>(Error::DataSourceExhausted),
    {
        let ghost before = *self;
        match self {
            DataSource::Transformed { original, transform } => {
                assert(forall|d: &mut [T]|
                    #[trigger] transform.accepts(d, seed) == before->Transformed_transform.accepts(
                        d,
                        seed,
                    ));
                let mut data = original.clone();
                let ghost copy = data@;
                assert(clones(original@, copy));
                transform.apply(data.as_mut_slice(), seed);
                proof {
                    let d = choose|d: &mut [T]|
                        #[trigger] transform.rewrites(d, seed) && d@ == copy && final(d)@ == data@;
                    assert(transform.rewrites(d, seed) == before->Transformed_transform.rewrites(
                        d,
                        seed,
                    ));
                    assert(before->Transformed_transform.rewrites(d, seed) && clones(
                        before->Transformed_original@,
                        d@,
                    ) && final(d)@ == data@);
                }
                Ok(data)
            },
            DataSource::Iterable { iter, .. } => match iter.next_dataset() {
                Some(data) => Ok(data),
                None => Err(Error::DataSourceExhausted),
            },
        }
    }
}

} // verus!
