//! The call protocol for the two foreign operations.
//!
//! Every wire value that crosses the boundary has one owner at each point in
//! time, and each side frees only what it allocated.  The protocol below
//! fixes the order of conversions, foreign calls and releases that keeps
//! that true.  The unverified driver performs the foreign work; it obtains
//! the steps, in order and once each, from the flows defined here, so the
//! pairing of every allocation with exactly one release is decided in this
//! module and not at the call sites.

use vstd::prelude::*;

verus! {

/// One step of an expansion transaction.
#[derive(Clone, Copy, PartialEq, Eq, Structural, Debug)]
pub enum ExpandStep {
    /// Convert the input token stream to its wire form: one host-side
    /// allocation.
    ConvertInput,
    /// Invoke the resolved `expand` entry point on the wire input,
    /// synchronously; the callee reads the input and returns a wrapper
    /// holding the dead input handle and a freshly allocated output.
    CallExpand,
    /// Reclaim the wire input on the host side: the callee only read it,
    /// so the host, which allocated it, must free it.
    ReleaseInput,
    /// Read the callee-allocated wire output into the native macro outcome
    /// without freeing it.
    ConvertOutput,
    /// Invoke the resolved `free_result` entry point on the wire output:
    /// only the callee's own free routine may release the callee's
    /// allocation.
    CallFreeResult,
}

/// One step of an auxiliary-data transaction.
#[derive(Clone, Copy, PartialEq, Eq, Structural, Debug)]
pub enum AuxStep {
    /// Convert one native auxiliary-data value to its wire form.
    ConvertElement,
    /// Gather the converted elements into one wire slice: one host-side
    /// allocation.
    MakeSlice,
    /// Invoke the resolved `aux_data_callback` entry point; whatever slice
    /// it returns is owned by the host.
    CallAuxCallback,
    /// Reclaim the slice the callback returned, read or unread.
    ReleaseReturnedSlice,
}

/// The expansion transaction, in order.  Exactly these steps, exactly once
/// each.
pub open spec fn expand_protocol() -> Seq<ExpandStep> {
    seq![
        ExpandStep::ConvertInput,
        ExpandStep::CallExpand,
        ExpandStep::ReleaseInput,
        ExpandStep::ConvertOutput,
        ExpandStep::CallFreeResult,
    ]
}

/// The auxiliary-data transaction for `n` native values: one conversion per
/// value, then the slice is built, the callback runs, and the returned
/// slice is reclaimed.
pub open spec fn aux_protocol(n: nat) -> Seq<AuxStep> {
    Seq::new(n, |i: int| AuxStep::ConvertElement) + seq![
        AuxStep::MakeSlice,
        AuxStep::CallAuxCallback,
        AuxStep::ReleaseReturnedSlice,
    ]
}

/// How often a step occurs in a trace of expansion steps.
pub open spec fn expand_step_count(trace: Seq<ExpandStep>, step: ExpandStep) -> int
    decreases trace.len(),
{
    if trace.len() == 0 {
        0
    } else {
        expand_step_count(trace.drop_last(), step) + if trace.last() == step {
            1int
        } else {
            0int
        }
    }
}

/// How often a step occurs in a trace of auxiliary-data steps.
pub open spec fn aux_step_count(trace: Seq<AuxStep>, step: AuxStep) -> int
    decreases trace.len(),
{
    if trace.len() == 0 {
        0
    } else {
        aux_step_count(trace.drop_last(), step) + if trace.last() == step {
            1int
        } else {
            0int
        }
    }
}

/// Law: one run of the expansion transaction balances its wire values.  The
/// one wire value the host allocates (the converted input) is released
/// exactly once, and the one foreign call that allocates (`expand`) is
/// answered by exactly one `free_result`, even though the output is read
/// into native form first: reading and freeing are separate steps.
pub proof fn lemma_expand_protocol_balanced()
    ensures
        expand_step_count(expand_protocol(), ExpandStep::ConvertInput) == 1,
        expand_step_count(expand_protocol(), ExpandStep::ReleaseInput) == 1,
        expand_step_count(expand_protocol(), ExpandStep::CallExpand) == 1,
        expand_step_count(expand_protocol(), ExpandStep::CallFreeResult) == 1,
        expand_step_count(expand_protocol(), ExpandStep::ConvertOutput) == 1,
{
    reveal_with_fuel(expand_step_count, 7);
    let p5 = expand_protocol();
    let p4 = seq![
        ExpandStep::ConvertInput,
        ExpandStep::CallExpand,
        ExpandStep::ReleaseInput,
        ExpandStep::ConvertOutput,
    ];
    let p3 = seq![ExpandStep::ConvertInput, ExpandStep::CallExpand, ExpandStep::ReleaseInput];
    let p2 = seq![ExpandStep::ConvertInput, ExpandStep::CallExpand];
    let p1 = seq![ExpandStep::ConvertInput];
    let p0 = Seq::<ExpandStep>::empty();
    assert(p5.drop_last() =~= p4);
    assert(p4.drop_last() =~= p3);
    assert(p3.drop_last() =~= p2);
    assert(p2.drop_last() =~= p1);
    assert(p1.drop_last() =~= p0);
}

/// Law: whatever the number of native values handed over, one run of the
/// auxiliary-data transaction invokes the callback exactly once and
/// reclaims the slice the callback returned exactly once, and it converts
/// exactly one element per native value.
pub proof fn lemma_aux_protocol_balanced(n: nat)
    ensures
        aux_step_count(aux_protocol(n), AuxStep::CallAuxCallback) == 1,
        aux_step_count(aux_protocol(n), AuxStep::ReleaseReturnedSlice) == 1,
        aux_step_count(aux_protocol(n), AuxStep::MakeSlice) == 1,
        aux_step_count(aux_protocol(n), AuxStep::ConvertElement) == n,
{
    reveal_with_fuel(aux_step_count, 5);
    let conversions = Seq::new(n, |i: int| AuxStep::ConvertElement);
    let t3 = aux_protocol(n);
    let t2 = conversions + seq![AuxStep::MakeSlice, AuxStep::CallAuxCallback];
    let t1 = conversions + seq![AuxStep::MakeSlice];
    assert(t3.drop_last() =~= t2);
    assert(t2.drop_last() =~= t1);
    assert(t1.drop_last() =~= conversions);
    lemma_constant_trace_count(n, AuxStep::ConvertElement);
    lemma_constant_trace_count(n, AuxStep::MakeSlice);
    lemma_constant_trace_count(n, AuxStep::CallAuxCallback);
    lemma_constant_trace_count(n, AuxStep::ReleaseReturnedSlice);
}

/// Law: propagating an empty sequence of auxiliary data converts no
/// element, and still reclaims the returned slice exactly once.
pub proof fn lemma_aux_protocol_empty()
    ensures
        aux_step_count(aux_protocol(0), AuxStep::ConvertElement) == 0,
        aux_step_count(aux_protocol(0), AuxStep::ReleaseReturnedSlice) == 1,
{
    lemma_aux_protocol_balanced(0);
}

/// In a trace that repeats one step, that step occurs once per element and
/// every other step not at all.
proof fn lemma_constant_trace_count(n: nat, step: AuxStep)
    ensures
        aux_step_count(Seq::new(n, |i: int| AuxStep::ConvertElement), step) == if step
            == AuxStep::ConvertElement {
            n as int
        } else {
            0int
        },
    decreases n,
{
    reveal_with_fuel(aux_step_count, 2);
    let trace = Seq::new(n, |i: int| AuxStep::ConvertElement);
    if n == 0 {
        assert(trace.len() == 0);
    } else {
        lemma_constant_trace_count((n - 1) as nat, step);
        assert(trace.drop_last() =~= Seq::new((n - 1) as nat, |i: int| AuxStep::ConvertElement));
        assert(trace.last() == AuxStep::ConvertElement);
    }
}

/// Hands out the steps of one expansion transaction, in order, once each.
/// A driver repeats `next_step` until it returns nothing, performing each
/// step as it comes.
pub struct ExpandFlow {
    pos: usize,
}

impl ExpandFlow {
    /// How many steps of the transaction have been handed out.
    pub closed spec fn spec_pos(&self) -> int {
        self.pos as int
    }

    /// The steps handed out so far: always a prefix of the protocol.
    pub open spec fn emitted(&self) -> Seq<ExpandStep> {
        expand_protocol().take(self.spec_pos())
    }

    /// Start an expansion transaction.
    pub fn begin() -> (f: ExpandFlow)
        ensures
            f.spec_pos() == 0,
    {
        ExpandFlow { pos: 0 }
    }

    /// The next step the driver must perform, or nothing once the
    /// transaction is complete.
    pub fn next_step(&mut self) -> (s: Option<ExpandStep>)
        ensures
            old(self).spec_pos() < expand_protocol().len() ==> (s == Some(
                expand_protocol()[old(self).spec_pos()],
            ) && final(self).spec_pos() == old(self).spec_pos() + 1),
            old(self).spec_pos() >= expand_protocol().len() ==> (s is None
                && final(self).spec_pos() == old(self).spec_pos()),
    {
        let step = if self.pos == 0 {
            Some(ExpandStep::ConvertInput)
        } else if self.pos == 1 {
            Some(ExpandStep::CallExpand)
        } else if self.pos == 2 {
            Some(ExpandStep::ReleaseInput)
        } else if self.pos == 3 {
            Some(ExpandStep::ConvertOutput)
        } else if self.pos == 4 {
            Some(ExpandStep::CallFreeResult)
        } else {
            None
        };
        if step.is_some() {
            self.pos = self.pos + 1;
        }
        step
    }

    /// Whether every step of the transaction has been handed out.
    pub fn is_complete(&self) -> (r: bool)
        ensures
            r == (self.spec_pos() >= expand_protocol().len()),
    {
        self.pos >= 5
    }
}

/// Law: a flow that has handed out every step has handed out exactly the
/// expansion protocol, once through.  With the balance law this says that
/// a driver that completes the flow was told to release the converted
/// input exactly once and to free the expansion's result exactly once.
pub proof fn lemma_complete_expand_flow_emits_protocol(f: &ExpandFlow)
    requires
        f.spec_pos() == expand_protocol().len(),
    ensures
        f.emitted() == expand_protocol(),
{
    assert(expand_protocol().take(expand_protocol().len() as int) =~= expand_protocol());
}

/// Law: an auxiliary-data flow that has handed out every step has handed
/// out exactly the auxiliary-data transaction for its number of values,
/// once through.
pub proof fn lemma_complete_aux_flow_emits_protocol(f: &AuxFlow)
    requires
        f.spec_pos() == aux_protocol(f.spec_total()).len(),
    ensures
        f.emitted() == aux_protocol(f.spec_total()),
{
    let p = aux_protocol(f.spec_total());
    assert(p.take(p.len() as int) =~= p);
}

/// Hands out the steps of one auxiliary-data transaction for a given number
/// of native values, in order, once each.
pub struct AuxFlow {
    total: usize,
    pos: usize,
}

impl AuxFlow {
    /// The number of native auxiliary-data values of this transaction.
    pub closed spec fn spec_total(&self) -> nat {
        self.total as nat
    }

    /// How many steps of the transaction have been handed out.
    pub closed spec fn spec_pos(&self) -> int {
        self.pos as int
    }

    /// The steps handed out so far: always a prefix of the transaction.
    pub open spec fn emitted(&self) -> Seq<AuxStep> {
        aux_protocol(self.spec_total()).take(self.spec_pos())
    }

    /// Start an auxiliary-data transaction over `total` native values.
    pub fn begin(total: usize) -> (f: AuxFlow)
        requires
            total + 3 <= usize::MAX,
        ensures
            f.spec_total() == total,
            f.spec_pos() == 0,
    {
        AuxFlow { total, pos: 0 }
    }

    /// The next step the driver must perform, or nothing once the
    /// transaction is complete.
    pub fn next_step(&mut self) -> (s: Option<AuxStep>)
        requires
            old(self).spec_total() + 3 <= usize::MAX,
        ensures
            final(self).spec_total() == old(self).spec_total(),
            old(self).spec_pos() < aux_protocol(old(self).spec_total()).len() ==> (s == Some(
                aux_protocol(old(self).spec_total())[old(self).spec_pos()],
            ) && final(self).spec_pos() == old(self).spec_pos() + 1),
            old(self).spec_pos() >= aux_protocol(old(self).spec_total()).len() ==> (s is None
                && (final(self).spec_pos() == old(self).spec_pos())),
    {
        let step = if self.pos < self.total {
            Some(AuxStep::ConvertElement)
        } else if self.pos == self.total {
            Some(AuxStep::MakeSlice)
        } else if self.pos == self.total + 1 {
            Some(AuxStep::CallAuxCallback)
        } else if self.pos == self.total + 2 {
            Some(AuxStep::ReleaseReturnedSlice)
        } else {
            None
        };
        if step.is_some() {
            self.pos = self.pos + 1;
        }
        step
    }

    /// Whether every step of the transaction has been handed out.
    pub fn is_complete(&self) -> (r: bool)
        requires
            self.spec_total() + 3 <= usize::MAX,
        ensures
            r == (self.spec_pos() >= aux_protocol(self.spec_total()).len()),
    {
        self.pos >= self.total + 3
    }
}

} // verus!
