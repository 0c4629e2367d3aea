//! Statically checked transformation pipelines.
//!
//! An owner type declares a fixed number of stages ([`Length`]), implements
//! one transformation per stage index ([`Chain`]), and, once every index in
//! range is covered with matching adjacent types, gains a single entry point
//! ([`Cascade`]) that threads a value through all stages in order.

use vstd::prelude::*;

pub mod scaler;

verus! {

/// Carrier of a fixed stage count. Implemented only by [`L`]; owner types
/// select a length by naming `L<N>` as their [`Length::Len`].
pub trait Len {
    /// The declared stage count, as a mathematical integer.
    spec fn spec_len() -> nat;

    /// The declared stage count, at runtime.
    fn len() -> (n: usize)
        ensures
            n as nat == Self::spec_len(),
    ;
}

/// Marker type carrying a stage count `N` at the type level.
pub struct L<const N: usize>;

impl<const N: usize> Len for L<N> {
    open spec fn spec_len() -> nat {
        N as nat
    }

    fn len() -> (n: usize) {
        N
    }
}

/// Binds a declared length to an owner type: the single source of truth for
/// how many stages the owner commits to. Declared once, never mutated.
pub trait Length {
    /// The marker type `L<N>` naming the declared length.
    type Len: Len;

    /// The owner's declared length, at runtime.
    fn len() -> (n: usize)
        ensures
            n as nat == <Self::Len as Len>::spec_len(),
    {
        <Self::Len as Len>::len()
    }
}

/// The largest declared length for which composition chains are
/// pre-established: `Link<N>` impls exist for every `N` up to this bound.
/// A greater declared length leaves [`Cascade`] unobtainable until the
/// chain definitions here are extended.
pub const MAX_SUPPORTED_LENGTH: usize = 32;

/// The range guard: implementing `InRange<N>` for an owner type obliges a
/// proof that index `N` lies below the owner's declared length. An index at
/// or past the declared length admits no such proof, so a stage there can
/// never be part of a valid build.
pub trait InRange<const N: usize>: Length {
    /// The standing fact `N < declared length`, discharged once per
    /// `(owner, index)` pair when the implementation is checked.
    proof fn range_guard()
        ensures
            (N as nat) < <Self::Len as Len>::spec_len(),
    ;
}

/// One transformation stage of an owner type, at index `N`. The stage's
/// input and output types are private to the index; adjacency with the
/// neighbouring stages is enforced by [`Link`], not here. Requiring
/// [`InRange<N>`] keeps every stage inside the declared length.
pub trait Chain<const N: usize>: InRange<N> {
    type In;
    type Out;

    /// What this stage computes, as a mathematical function.
    spec fn chain_spec(input: Self::In) -> Self::Out;

    /// Runs this stage on one input.
    fn chain(input: Self::In) -> (out: Self::Out)
        ensures
            out == Self::chain_spec(input),
    ;
}

/// The composition of stages `0..N`: derived, never written by hand. The
/// base case is stage 0 alone; each further `Link<N>` exists only when
/// `Link<N - 1>` exists and stage `N - 1` consumes exactly its output type,
/// so a missing stage or an adjacent type mismatch leaves the composition
/// absent rather than failing at run time.
pub trait Link<const N: usize> {
    type In;
    type Out;

    /// What the composition computes: stage `N - 1` applied to the result
    /// of the composition of stages `0..N - 1`.
    spec fn link_spec(input: Self::In) -> Self::Out;

    /// Runs stages `0..N` in order, each completing before the next starts.
    fn link(input: Self::In) -> (out: Self::Out)
        ensures
            out == Self::link_spec(input),
    ;
}

impl<T: Chain<0>> Link<1> for T {
    type In = <T as Chain<0>>::In;
    type Out = <T as Chain<0>>::Out;

    open spec fn link_spec(input: Self::In) -> Self::Out {
        <T as Chain<0>>::chain_spec(input)
    }

    fn link(input: Self::In) -> (out: Self::Out) {
        <T as Chain<0>>::chain(input)
    }
}

impl<T> Link<2> for T
where
    T: Chain<0>,
    T: Link<1, In = <T as Chain<0>>::In>,
    T: Chain<1, In = <T as Link<1>>::Out>,
{
    type In = <T as Chain<0>>::In;
    type Out = <T as Chain<1>>::Out;

    open spec fn link_spec(input: Self::In) -> Self::Out {
        <T as Chain<1>>::chain_spec(<T as Link<1>>::link_spec(input))
    }

    fn link(input: Self::In) -> (out: Self::Out) {
        <T as Chain<1>>::chain(<T as Link<1>>::link(input))
    }
}

impl<T> Link<3> for T
where
    T: Chain<0>,
    T: Link<2, In = <T as Chain<0>>::In>,
    T: Chain<2, In = <T as Link<2>>::Out>,
{
    type In = <T as Chain<0>>::In;
    type Out = <T as Chain<2>>::Out;

    open spec fn link_spec(input: Self::In) -> Self::Out {
        <T as Chain<2>>::chain_spec(<T as Link<2>>::link_spec(input))
    }

    fn link(input: Self::In) -> (out: Self::Out) {
        <T as Chain<2>>::chain(<T as Link<2>>::link(input))
    }
}

impl<T> Link<4> for T
where
    T: Chain<0>,
    T: Link<3, In = <T as Chain<0>>::In>,
    T: Chain<3, In = <T as Link<3>>::Out>,
{
    type In = <T as Chain<0>>::In;
    type Out = <T as Chain<3>>::Out;

    open spec fn link_spec(input: Self::In) -> Self::Out {
        <T as Chain<3>>::chain_spec(<T as Link<3>>::link_spec(input))
    }

    fn link(input: Self::In) -> (out: Self::Out) {
        <T as Chain<3>>::chain(<T as Link<3>>::link(input))
    }
}

impl<T> Link<5> for T
where
    T: Chain<0>,
    T: Link<4, In = <T as Chain<0>>::In>,
    T: Chain<4, In = <T as Link<4>>::Out>,
{
    type In = <T as Chain<0>>::In;
    type Out = <T as Chain<4>>::Out;

    open spec fn link_spec(input: Self::In) -> Self::Out {
        <T as Chain<4>>::chain_spec(<T as Link<4>>::link_spec(input))
    }

    fn link(input: Self::In) -> (out: Self::Out) {
        <T as Chain<4>>::chain(<T as Link<4>>::link(input))
    }
}

impl<T> Link<6> for T
where
    T: Chain<0>,
    T: Link<5, In = <T as Chain<0>>::In>,
    T: Chain<5, In = <T as Link<5>>::Out>,
{
    type In = <T as Chain<0>>::In;
    type Out = <T as Chain<5>>::Out;

    open spec fn link_spec(input: Self::In) -> Self::Out {
        <T as Chain<5>>::chain_spec(<T as Link<5>>::link_spec(input))
    }

    fn link(input: Self::In) -> (out: Self::Out) {
        <T as Chain<5>>::chain(<T as Link<5>>::link(input))
    }
}

impl<T> Link<7> for T
where
    T: Chain<0>,
    T: Link<6, In = <T as Chain<0>>::In>,
    T: Chain<6, In = <T as Link<6>>::Out>,
{
    type In = <T as Chain<0>>::In;
    type Out = <T as Chain<6>>::Out;

    open spec fn link_spec(input: Self::In) -> Self::Out {
        <T as Chain<6>>::chain_spec(<T as Link<6>>::link_spec(input))
    }

    fn link(input: Self::In) -> (out: Self::Out) {
        <T as Chain<6>>::chain(<T as Link<6>>::link(input))
    }
}

impl<T> Link<8> for T
where
    T: Chain<0>,
    T: Link<7, In = <T as Chain<0>>::In>,
    T: Chain<7, In = <T as Link<7>>::Out>,
{
    type In = <T as Chain<0>>::In;
    type Out = <T as Chain<7>>::Out;

    open spec fn link_spec(input: Self::In) -> Self::Out {
        <T as Chain<7>>::chain_spec(<T as Link<7>>::link_spec(input))
    }

    fn link(input: Self::In) -> (out: Self::Out) {
        <T as Chain<7>>::chain(<T as Link<7>>::link(input))
    }
}

impl<T> Link<9> for T
where
    T: Chain<0>,
    T: Link<8, In = <T as Chain<0>>::In>,
    T: Chain<8, In = <T as Link<8>>::Out>,
{
    type In = <T as Chain<0>>::In;
    type Out = <T as Chain<8>>::Out;

    open spec fn link_spec(input: Self::In) -> Self::Out {
        <T as Chain<8>>::chain_spec(<T as Link<8>>::link_spec(input))
    }

    fn link(input: Self::In) -> (out: Self::Out) {
        <T as Chain<8>>::chain(<T as Link<8>>::link(input))
    }
}

impl<T> Link<10> for T
where
    T: Chain<0>,
    T: Link<9, In = <T as Chain<0>>::In>,
    T: Chain<9, In = <T as Link<9>>::Out>,
{
    type In = <T as Chain<0>>::In;
    type Out = <T as Chain<9>>::Out;

    open spec fn link_spec(input: Self::In) -> Self::Out {
        <T as Chain<9>>::chain_spec(<T as Link<9>>::link_spec(input))
    }

    fn link(input: Self::In) -> (out: Self::Out) {
        <T as Chain<9>>::chain(<T as Link<9>>::link(input))
    }
}

impl<T> Link<11> for T
where
    T: Chain<0>,
    T: Link<10, In = <T as Chain<0>>::In>,
    T: Chain<10, In = <T as Link<10>>::Out>,
{
    type In = <T as Chain<0>>::In;
    type Out = <T as Chain<10>>::Out;

    open spec fn link_spec(input: Self::In) -> Self::Out {
        <T as Chain<10>>::chain_spec(<T as Link<10>>::link_spec(input))
    }

    fn link(input: Self::In) -> (out: Self::Out) {
        <T as Chain<10>>::chain(<T as Link<10>>::link(input))
    }
}

impl<T> Link<12> for T
where
    T: Chain<0>,
    T: Link<11, In = <T as Chain<0>>::In>,
    T: Chain<11, In = <T as Link<11>>::Out>,
{
    type In = <T as Chain<0>>::In;
    type Out = <T as Chain<11>>::Out;

    open spec fn link_spec(input: Self::In) -> Self::Out {
        <T as Chain<11>>::chain_spec(<T as Link<11>>::link_spec(input))
    }

    fn link(input: Self::In) -> (out: Self::Out) {
        <T as Chain<11>>::chain(<T as Link<11>>::link(input))
    }
}

impl<T> Link<13> for T
where
    T: Chain<0>,
    T: Link<12, In = <T as Chain<0>>::In>,
    T: Chain<12, In = <T as Link<12>>::Out>,
{
    type In = <T as Chain<0>>::In;
    type Out = <T as Chain<12>>::Out;

    open spec fn link_spec(input: Self::In) -> Self::Out {
        <T as Chain<12>>::chain_spec(<T as Link<12>>::link_spec(input))
    }

    fn link(input: Self::In) -> (out: Self::Out) {
        <T as Chain<12>>::chain(<T as Link<12>>::link(input))
    }
}

impl<T> Link<14> for T
where
    T: Chain<0>,
    T: Link<13, In = <T as Chain<0>>::In>,
    T: Chain<13, In = <T as Link<13>>::Out>,
{
    type In = <T as Chain<0>>::In;
    type Out = <T as Chain<13>>::Out;

    open spec fn link_spec(input: Self::In) -> Self::Out {
        <T as Chain<13>>::chain_spec(<T as Link<13>>::link_spec(input))
    }

    fn link(input: Self::In) -> (out: Self::Out) {
        <T as Chain<13>>::chain(<T as Link<13>>::link(input))
    }
}

impl<T> Link<15> for T
where
    T: Chain<0>,
    T: Link<14, In = <T as Chain<0>>::In>,
    T: Chain<14, In = <T as Link<14>>::Out>,
{
    type In = <T as Chain<0>>::In;
    type Out = <T as Chain<14>>::Out;

    open spec fn link_spec(input: Self::In) -> Self::Out {
        <T as Chain<14>>::chain_spec(<T as Link<14>>::link_spec(input))
    }

    fn link(input: Self::In) -> (out: Self::Out) {
        <T as Chain<14>>::chain(<T as Link<14>>::link(input))
    }
}

impl<T> Link<16> for T
where
    T: Chain<0>,
    T: Link<15, In = <T as Chain<0>>::In>,
    T: Chain<15, In = <T as Link<15>>::Out>,
{
    type In = <T as Chain<0>>::In;
    type Out = <T as Chain<15>>::Out;

    open spec fn link_spec(input: Self::In) -> Self::Out {
        <T as Chain<15>>::chain_spec(<T as Link<15>>::link_spec(input))
    }

    fn link(input: Self::In) -> (out: Self::Out) {
        <T as Chain<15>>::chain(<T as Link<15>>::link(input))
    }
}

impl<T> Link<17> for T
where
    T: Chain<0>,
    T: Link<16, In = <T as Chain<0>>::In>,
    T: Chain<16, In = <T as Link<16>>::Out>,
{
    type In = <T as Chain<0>>::In;
    type Out = <T as Chain<16>>::Out;

    open spec fn link_spec(input: Self::In) -> Self::Out {
        <T as Chain<16>>::chain_spec(<T as Link<16>>::link_spec(input))
    }

    fn link(input: Self::In) -> (out: Self::Out) {
        <T as Chain<16>>::chain(<T as Link<16>>::link(input))
    }
}

impl<T> Link<18> for T
where
    T: Chain<0>,
    T: Link<17, In = <T as Chain<0>>::In>,
    T: Chain<17, In = <T as Link<17>>::Out>,
{
    type In = <T as Chain<0>>::In;
    type Out = <T as Chain<17>>::Out;

    open spec fn link_spec(input: Self::In) -> Self::Out {
        <T as Chain<17>>::chain_spec(<T as Link<17>>::link_spec(input))
    }

    fn link(input: Self::In) -> (out: Self::Out) {
        <T as Chain<17>>::chain(<T as Link<17>>::link(input))
    }
}

impl<T> Link<19> for T
where
    T: Chain<0>,
    T: Link<18, In = <T as Chain<0>>::In>,
    T: Chain<18, In = <T as Link<18>>::Out>,
{
    type In = <T as Chain<0>>::In;
    type Out = <T as Chain<18>>::Out;

    open spec fn link_spec(input: Self::In) -> Self::Out {
        <T as Chain<18>>::chain_spec(<T as Link<18>>::link_spec(input))
    }

    fn link(input: Self::In) -> (out: Self::Out) {
        <T as Chain<18>>::chain(<T as Link<18>>::link(input))
    }
}

impl<T> Link<20> for T
where
    T: Chain<0>,
    T: Link<19, In = <T as Chain<0>>::In>,
    T: Chain<19, In = <T as Link<19>>::Out>,
{
    type In = <T as Chain<0>>::In;
    type Out = <T as Chain<19>>::Out;

    open spec fn link_spec(input: Self::In) -> Self::Out {
        <T as Chain<19>>::chain_spec(<T as Link<19>>::link_spec(input))
    }

    fn link(input: Self::In) -> (out: Self::Out) {
        <T as Chain<19>>::chain(<T as Link<19>>::link(input))
    }
}

impl<T> Link<21> for T
where
    T: Chain<0>,
    T: Link<20, In = <T as Chain<0>>::In>,
    T: Chain<20, In = <T as Link<20>>::Out>,
{
    type In = <T as Chain<0>>::In;
    type Out = <T as Chain<20>>::Out;

    open spec fn link_spec(input: Self::In) -> Self::Out {
        <T as Chain<20>>::chain_spec(<T as Link<20>>::link_spec(input))
    }

    fn link(input: Self::In) -> (out: Self::Out) {
        <T as Chain<20>>::chain(<T as Link<20>>::link(input))
    }
}

impl<T> Link<22> for T
where
    T: Chain<0>,
    T: Link<21, In = <T as Chain<0>>::In>,
    T: Chain<21, In = <T as Link<21>>::Out>,
{
    type In = <T as Chain<0>>::In;
    type Out = <T as Chain<21>>::Out;

    open spec fn link_spec(input: Self::In) -> Self::Out {
        <T as Chain<21>>::chain_spec(<T as Link<21>>::link_spec(input))
    }

    fn link(input: Self::In) -> (out: Self::Out) {
        <T as Chain<21>>::chain(<T as Link<21>>::link(input))
    }
}

impl<T> Link<23> for T
where
    T: Chain<0>,
    T: Link<22, In = <T as Chain<0>>::In>,
    T: Chain<22, In = <T as Link<22>>::Out>,
{
    type In = <T as Chain<0>>::In;
    type Out = <T as Chain<22>>::Out;

    open spec fn link_spec(input: Self::In) -> Self::Out {
        <T as Chain<22>>::chain_spec(<T as Link<22>>::link_spec(input))
    }

    fn link(input: Self::In) -> (out: Self::Out) {
        <T as Chain<22>>::chain(<T as Link<22>>::link(input))
    }
}

impl<T> Link<24> for T
where
    T: Chain<0>,
    T: Link<23, In = <T as Chain<0>>::In>,
    T: Chain<23, In = <T as Link<23>>::Out>,
{
    type In = <T as Chain<0>>::In;
    type Out = <T as Chain<23>>::Out;

    open spec fn link_spec(input: Self::In) -> Self::Out {
        <T as Chain<23>>::chain_spec(<T as Link<23>>::link_spec(input))
    }

    fn link(input: Self::In) -> (out: Self::Out) {
        <T as Chain<23>>::chain(<T as Link<23>>::link(input))
    }
}

impl<T> Link<25> for T
where
    T: Chain<0>,
    T: Link<24, In = <T as Chain<0>>::In>,
    T: Chain<24, In = <T as Link<24>>::Out>,
{
    type In = <T as Chain<0>>::In;
    type Out = <T as Chain<24>>::Out;

    open spec fn link_spec(input: Self::In) -> Self::Out {
        <T as Chain<24>>::chain_spec(<T as Link<24>>::link_spec(input))
    }

    fn link(input: Self::In) -> (out: Self::Out) {
        <T as Chain<24>>::chain(<T as Link<24>>::link(input))
    }
}

impl<T> Link<26> for T
where
    T: Chain<0>,
    T: Link<25, In = <T as Chain<0>>::In>,
    T: Chain<25, In = <T as Link<25>>::Out>,
{
    type In = <T as Chain<0>>::In;
    type Out = <T as Chain<25>>::Out;

    open spec fn link_spec(input: Self::In) -> Self::Out {
        <T as Chain<25>>::chain_spec(<T as Link<25>>::link_spec(input))
    }

    fn link(input: Self::In) -> (out: Self::Out) {
        <T as Chain<25>>::chain(<T as Link<25>>::link(input))
    }
}

impl<T> Link<27> for T
where
    T: Chain<0>,
    T: Link<26, In = <T as Chain<0>>::In>,
    T: Chain<26, In = <T as Link<26>>::Out>,
{
    type In = <T as Chain<0>>::In;
    type Out = <T as Chain<26>>::Out;

    open spec fn link_spec(input: Self::In) -> Self::Out {
        <T as Chain<26>>::chain_spec(<T as Link<26>>::link_spec(input))
    }

    fn link(input: Self::In) -> (out: Self::Out) {
        <T as Chain<26>>::chain(<T as Link<26>>::link(input))
    }
}

impl<T> Link<28> for T
where
    T: Chain<0>,
    T: Link<27, In = <T as Chain<0>>::In>,
    T: Chain<27, In = <T as Link<27>>::Out>,
{
    type In = <T as Chain<0>>::In;
    type Out = <T as Chain<27>>::Out;

    open spec fn link_spec(input: Self::In) -> Self::Out {
        <T as Chain<27>>::chain_spec(<T as Link<27>>::link_spec(input))
    }

    fn link(input: Self::In) -> (out: Self::Out) {
        <T as Chain<27>>::chain(<T as Link<27>>::link(input))
    }
}

impl<T> Link<29> for T
where
    T: Chain<0>,
    T: Link<28, In = <T as Chain<0>>::In>,
    T: Chain<28, In = <T as Link<28>>::Out>,
{
    type In = <T as Chain<0>>::In;
    type Out = <T as Chain<28>>::Out;

    open spec fn link_spec(input: Self::In) -> Self::Out {
        <T as Chain<28>>::chain_spec(<T as Link<28>>::link_spec(input))
    }

    fn link(input: Self::In) -> (out: Self::Out) {
        <T as Chain<28>>::chain(<T as Link<28>>::link(input))
    }
}

impl<T> Link<30> for T
where
    T: Chain<0>,
    T: Link<29, In = <T as Chain<0>>::In>,
    T: Chain<29, In = <T as Link<29>>::Out>,
{
    type In = <T as Chain<0>>::In;
    type Out = <T as Chain<29>>::Out;

    open spec fn link_spec(input: Self::In) -> Self::Out {
        <T as Chain<29>>::chain_spec(<T as Link<29>>::link_spec(input))
    }

    fn link(input: Self::In) -> (out: Self::Out) {
        <T as Chain<29>>::chain(<T as Link<29>>::link(input))
    }
}

impl<T> Link<31> for T
where
    T: Chain<0>,
    T: Link<30, In = <T as Chain<0>>::In>,
    T: Chain<30, In = <T as Link<30>>::Out>,
{
    type In = <T as Chain<0>>::In;
    type Out = <T as Chain<30>>::Out;

    open spec fn link_spec(input: Self::In) -> Self::Out {
        <T as Chain<30>>::chain_spec(<T as Link<30>>::link_spec(input))
    }

    fn link(input: Self::In) -> (out: Self::Out) {
        <T as Chain<30>>::chain(<T as Link<30>>::link(input))
    }
}

impl<T> Link<32> for T
where
    T: Chain<0>,
    T: Link<31, In = <T as Chain<0>>::In>,
    T: Chain<31, In = <T as Link<31>>::Out>,
{
    type In = <T as Chain<0>>::In;
    type Out = <T as Chain<31>>::Out;

    open spec fn link_spec(input: Self::In) -> Self::Out {
        <T as Chain<31>>::chain_spec(<T as Link<31>>::link_spec(input))
    }

    fn link(input: Self::In) -> (out: Self::Out) {
        <T as Chain<31>>::chain(<T as Link<31>>::link(input))
    }
}

/// The single public entry point. Available exactly when the owner's
/// composition chain reaches its declared length: with length `N`, when
/// `Link<N>` exists, covering stages `0..=N - 1`. A declared length of 0
/// yields no entry point, since the chain construction starts at 1.
pub trait Cascade {
    type In;
    type Out;

    /// What the full pipeline computes: every stage applied in order.
    spec fn cascade_spec(input: Self::In) -> Self::Out;

    /// Threads one input through every stage of the owner type in order
    /// and returns the final stage's output.
    fn cascade(input: Self::In) -> (out: Self::Out)
        ensures
            out == Self::cascade_spec(input),
    ;
}

impl<const N: usize, T: Link<N> + Length<Len = L<N>>> Cascade for T {
    type In = <T as Link<N>>::In;
    type Out = <T as Link<N>>::Out;

    open spec fn cascade_spec(input: <T as Link<N>>::In) -> <T as Link<N>>::Out {
        <T as Link<N>>::link_spec(input)
    }

    fn cascade(input: <T as Link<N>>::In) -> (out: <T as Link<N>>::Out) {
        <T as Link<N>>::link(input)
    }
}

/// Law: a stage can only stand inside the declared length. Every owner type
/// with a stage at index `N` carries a proof that `N` is below its declared
/// length, so an out-of-range stage admits no implementation at all.
pub proof fn stage_index_in_range<const N: usize, T: Chain<N>>()
    ensures
        (N as nat) < <T::Len as Len>::spec_len(),
{
    <T as InRange<N>>::range_guard();
}

/// Law: a stage at any index forces a declared length of at least 1, so an
/// owner type with declared length 0 can have no stage, hence no composition
/// chain and no cascade.
pub proof fn stage_needs_positive_length<const N: usize, T: Chain<N>>()
    ensures
        <T::Len as Len>::spec_len() >= 1,
{
    <T as InRange<N>>::range_guard();
}

/// Law: with declared length 1 the cascade is the base case directly —
/// it agrees with stage 0, with no intermediate composition involved.
pub proof fn cascade_single_stage<T>(input: <T as Chain<0>>::In)
    where
        T: Chain<0>,
        T: Length<Len = L<1>>,
    ensures
        <T as Cascade>::cascade_spec(input) == <T as Chain<0>>::chain_spec(input),
{
}

/// Law: the cascade is the nested application of its stages in order, shown
/// here at length 3: stage 2 applied to stage 1 applied to stage 0.
pub proof fn cascade_nested_stages<T>(input: <T as Chain<0>>::In)
    where
        T: Chain<0>,
        T: Chain<1, In = <T as Link<1>>::Out>,
        T: Chain<2, In = <T as Link<2>>::Out>,
        T: Length<Len = L<3>>,
    ensures
        <T as Cascade>::cascade_spec(input) == <T as Chain<2>>::chain_spec(
            <T as Chain<1>>::chain_spec(<T as Chain<0>>::chain_spec(input)),
        ),
{
}

} // verus!
