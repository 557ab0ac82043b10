//! The data sources of the BIOD variant of the algorithm, which borrow their
//! original dataset and may also generate datasets from scratch.
use vstd::prelude::*;

use crate::data_src::{DatasetIter, QueuedDatasets};
use crate::error::Error;

verus! {

/// A function that derives a dataset from an original one, given a seed.
///
/// Every closure `Fn(&[T], u64) -> Vec<T>` is one.
pub trait DeriveFn<T> {
    /// Whether the function can be called on `input` with `seed`.
    spec fn accepts(&self, input: &[T], seed: u64) -> bool;

    /// Whether `out` is a result that the function may give for `input` and `seed`.
    spec fn gives(&self, input: &[T], seed: u64, out: Vec<T>) -> bool;

    /// Derives a dataset from `input` for `seed`.
    fn derive(&self, input: &[T], seed: u64) -> (out: Vec<T>)
        requires
            self.accepts(input, seed),
        ensures
            self.gives(input, seed, out),
    ;
}

impl<T, F: Fn(&[T], u64) -> Vec<T>> DeriveFn<T> for F {
    open spec fn accepts(&self, input: &[T], seed: u64) -> bool {
        call_requires(*self, (input, seed))
    }

    open spec fn gives(&self, input: &[T], seed: u64, out: Vec<T>) -> bool {
        call_ensures(*self, (input, seed), out)
    }

    fn derive(&self, input: &[T], seed: u64) -> (out: Vec<T>) {
        (self)(input, seed)
    }
}

/// A function that generates a dataset of a given length from a seed, and may keep
/// state between calls.
///
/// Every closure `FnMut(usize, u64) -> Vec<T>` is one.
pub trait GenerateFn<T> {
    /// Whether the function, in its present state, can be called on `length` and `seed`.
    spec fn accepts(&self, length: usize, seed: u64) -> bool;

    /// Whether `out` is a result that the function, in its present state, may give
    /// for `length` and `seed`.
    spec fn gives(&self, length: usize, seed: u64, out: Vec<T>) -> bool;

    /// Generates a dataset of length `length` for `seed`.
    fn generate(&mut self, length: usize, seed: u64) -> (out: Vec<T>)
        requires
            old(self).accepts(length, seed),
        ensures
            forall|len: usize, s: u64| old(self).accepts(len, s) ==> #[trigger] final(self).accepts(len, s),
            old(self).gives(length, seed, out),
    ;
}

impl<T, F: FnMut(usize, u64) -> Vec<T>> GenerateFn<T> for F {
    open spec fn accepts(&self, length: usize, seed: u64) -> bool {
        call_requires(*self, (length, seed))
    }

    open spec fn gives(&self, length: usize, seed: u64, out: Vec<T>) -> bool {
        call_ensures(*self, (length, seed), out)
    }

    fn generate(&mut self, length: usize, seed: u64) -> Vec<T> {
        (self)(length, seed)
    }
}

/// Source of data for a BIOD run, either transformed from an original dataset
/// or generated from scratch.
#[verifier::reject_recursive_types(T)]
pub enum DataSource<'src, T> {
    /// Original dataset with a transformation function to produce test datasets.
    ///
    /// The length of the transformed datasets must be the same as the original dataset.
    Transformed { original: &'src [T], transform: Box<dyn DeriveFn<T> + 'src> },
    /// Datasets generated from scratch using a provided generator function.
    ///
    /// The length of the generated datasets must be consistent across calls.
    Generated { length: usize, generator: Box<dyn GenerateFn<T> + 'src> },
    /// An iterable data source that produces datasets from a provided iterator.
    /// The length of the datasets produced must be consistent across calls.
    Iterable { length: usize, iter: Box<dyn DatasetIter<T> + 'src> },
}

impl<'src, T> DataSource<'src, T> {
    /// The length of the datasets this source is declared to hand out.
    pub open spec fn spec_len(&self) -> nat {
        match self {
            DataSource::Transformed { original, .. } => original@.len(),
            DataSource::Generated { length, .. } => *length as nat,
            DataSource::Iterable { length, .. } => *length as nat,
        }
    }

    /// Whether the source can hand out a dataset for `seed`: a transformed source's
    /// function must accept the original with that seed, and a generated source's
    /// function the declared length.
    pub open spec fn accepts(&self, seed: u64) -> bool {
        &&& self is Transformed ==> self->Transformed_transform.accepts(
            self->Transformed_original,
            seed,
        )
        &&& self is Generated ==> self->Generated_generator.accepts(self->Generated_length, seed)
    }

    /// Create a transformed data source from an original dataset and a transformation function.
    pub fn transformed<F>(original: &'src [T], transform: F) -> (src: Self)
        where
            F: Fn(&[T], u64) -> Vec<T> + 'src,
        ensures
            src is Transformed,
            src->Transformed_original == original,
            src.spec_len() == original@.len(),
            forall|input: &[T], seed: u64, out: Vec<T>|
                #[trigger] src->Transformed_transform.gives(input, seed, out) == call_ensures(
                    transform,
                    (input, seed),
                    out,
                ),
            forall|input: &[T], seed: u64|
                #[trigger] src->Transformed_transform.accepts(input, seed) == call_requires(
                    transform,
                    (input, seed),
                ),
    {
        DataSource::Transformed { original, transform: Box::new(transform) }
    }

    /// Create a generated data source from a generator function and the length of
    /// datasets to produce.
    pub fn generated<F>(length: usize, generator: F) -> (src: Self)
        where
            F: FnMut(usize, u64) -> Vec<T> + 'src,
        ensures
            src is Generated,
            src.spec_len() == length,
            forall|len: usize, seed: u64, out: Vec<T>|
                #[trigger] src->Generated_generator.gives(len, seed, out) == call_ensures(
                    generator,
                    (len, seed),
                    out,
                ),
            forall|len: usize, seed: u64|
                #[trigger] src->Generated_generator.accepts(len, seed) == call_requires(
                    generator,
                    (len, seed),
                ),
    {
        DataSource::Generated { length, generator: Box::new(generator) }
    }

    /// Create an iterable data source from a provided iterator.
    ///
    /// An arbitrary iterator's datasets are not known ahead of time, so the source's
    /// pending datasets are unknown (`None`); each dataset handed out is the iterator's
    /// next item, and the source is exhausted when the iterator is.
    pub fn iterable<I>(length: usize, iter: I) -> (src: Self)
        where
            I: Iterator<Item = Vec<T>> + 'src,
        ensures
            src is Iterable,
            src.spec_len() == length,
            src->Iterable_iter.pending() is None,
    {
        DataSource::Iterable { length, iter: Box::new(iter) }
    }

    /// Get the next dataset to test, using the provided seed for any necessary
    /// transformation or generation.
    ///
    /// Returns an error only if the data source is an exhausted iterator.
    pub fn get_data(&mut self, seed: u64) -> (r: Result<Vec<T>, Error>)
        requires
            old(self).accepts(seed),
        ensures
            final(self).spec_len() == old(self).spec_len(),
            forall|s: u64| old(self).accepts(s) ==> #[trigger] final(self).accepts(s),
            *old(self) is Transformed ==> {
                &&& *final(self) == *old(self)
                &&& r is Ok
                &&& old(self)->Transformed_transform.gives(
                    old(self)->Transformed_original,
                    seed,
                    r->Ok_0,
                )
            },
            *old(self) is Generated ==> {
                &&& *final(self) is Generated
                &&& final(self)->Generated_length == old(self)->Generated_length
                &&& r is Ok
                &&& old(self)->Generated_generator.gives(old(self)->Generated_length, seed, r->Ok_0)
            },
            *old(self) is Iterable ==> {
                &&& *final(self) is Iterable
                &&& final(self)->Iterable_length == old(self)->Iterable_length
                &&& match old(self)->Iterable_iter.pending() {
                    Some(items) => if items.len() > 0 {
                        &&& r == Ok::<Vec<T>, Error>(items[0])
                        &&& final(self)->Iterable_iter.pending() == Some(items.drop_first())
                    } else {
                        &&& r == Err::<Vec<T>, Error>(Error::DataSourceExhausted)
                        &&& final(self)->Iterable_iter.pending() == Some(items)
                    },
                    None => final(self)->Iterable_iter.pending() is None,
                }
            },
            r is Err ==> r == Err::<Vec<T>, Error>(Error::DataSourceExhausted),
    {
        match self {
            DataSource::Transformed { original, transform } => Ok(transform.derive(original, seed)),
            DataSource::Generated { length, generator } => Ok(generator.generate(*length, seed)),
            DataSource::Iterable { iter, .. } => match iter.next_dataset() {
                Some(data) => Ok(data),
                None => Err(Error::DataSourceExhausted),
            },
        }
    }

    /// Create an iterable data source that hands out `datasets` in order, each once,
    /// and is then exhausted.
    pub fn from_datasets(length: usize, datasets: Vec<Vec<T>>) -> (src: Self)
        where
            T: 'src,
        ensures
            src is Iterable,
            src.spec_len() == length,
            src->Iterable_iter.pending() == Some(datasets@),
    {
        DataSource::Iterable { length, iter: Box::new(QueuedDatasets::new(datasets)) }
    }

    /// Get the length of the datasets produced by this data source.
    pub fn len(&self) -> (n: usize)
        ensures
            n == self.spec_len(),
    {
        match self {
            DataSource::Transformed { original, .. } => original.len(),
            DataSource::Generated { length, .. } => *length,
            DataSource::Iterable { length, .. } => *length,
        }
    }
}

} // verus!
