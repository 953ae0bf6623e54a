//! The session with the DTrace library, and the enumeration of its probes.
//!
//! The calls into the library are made by the caller of this module. What is
//! decided here is what their outcome means: whether a session is open and
//! which error it is if not, which probe a record describes, which probes
//! the consumer gets and in what order, and that the enumeration goes on
//! after each record.

use crate::err::Error;
use crate::probe::{DTraceProbeDesc, Probe, ProbeView};
use libc::c_int;
use vstd::prelude::*;

verus! {

/// DTrace library version we are targeting
pub const DTRACE_VERSION: c_int = 3;

/// The flags with which a session is opened: none.
pub const DTRACE_OPEN_FLAGS: c_int = 0;

/// What the callback of the enumeration answers to have the next probe.
pub const DTRACE_PROBE_NEXT: c_int = 0;

/// The consumer of an enumeration: it is given the probes one at a time.
pub trait ProbeSink {
    /// The probes that the consumer has been given so far, the first in front.
    spec fn seen(&self) -> Seq<ProbeView>;

    /// Whether the consumer can be given probes, whichever they are. It says
    /// nothing of the probes seen, and giving a probe does not change it.
    spec fn ready(&self) -> bool;

    /// Takes one probe, which is then the last of those seen.
    fn accept(&mut self, probe: Probe)
        requires
            old(self).ready(),
        ensures
            final(self).ready(),
            final(self).seen() == old(self).seen().push(probe@),
    ;
}

/// A vector collects the probes that it is given, in the order in which they
/// come.
impl ProbeSink for Vec<Probe> {
    open spec fn seen(&self) -> Seq<ProbeView> {
        self@.map_values(|probe: Probe| probe@)
    }

    open spec fn ready(&self) -> bool {
        true
    }

    fn accept(&mut self, probe: Probe) {
        self.push(probe);
        assert(self@.map_values(|probe: Probe| probe@) =~= old(self)@.map_values(
            |probe: Probe| probe@,
        ).push(probe@));
    }
}

/// A consumer that is a closure: each probe that it is given is handed to the
/// closure, in one call, and so the probes seen are the arguments of the
/// calls of the closure, in the order of the calls. What it is, is the
/// closure together with the probes seen.
pub struct FnSink<F: FnMut(Probe)> {
    callback: F,
    given: Ghost<Seq<ProbeView>>,
}

impl<F: FnMut(Probe)> FnSink<F> {
    /// The closure that the consumer hands its probes to.
    pub closed spec fn consumer(&self) -> F {
        self.callback
    }

    /// Makes a consumer of `callback`, which has seen nothing yet. It is
    /// ready where the closure takes every probe.
    pub fn new(callback: F) -> (sink: FnSink<F>)
        ensures
            sink.consumer() == callback,
            sink.seen() == Seq::<ProbeView>::empty(),
            sink.ready() <==> forall|probe: Probe| call_requires(callback, (probe,)),
    {
        FnSink { callback, given: Ghost(Seq::empty()) }
    }
}

impl<F: FnMut(Probe)> ProbeSink for FnSink<F> {
    closed spec fn seen(&self) -> Seq<ProbeView> {
        self.given@
    }

    closed spec fn ready(&self) -> bool {
        forall|probe: Probe| call_requires(self.callback, (probe,))
    }

    /// Hands `probe` to the closure, which stays the closure of the consumer.
    fn accept(&mut self, probe: Probe)
        ensures
            call_ensures(old(self).consumer(), (probe,), ()),
            final(self).consumer() == old(self).consumer(),
    {
        proof {
            self.given@ = self.given@.push(probe@);
        }
        (self.callback)(probe);
    }
}

/// The probes that `records` describe, one for each record and in the order
/// of the records.
pub open spec fn probes_of(records: Seq<DTraceProbeDesc>) -> Seq<ProbeView> {
    records.map_values(|desc: DTraceProbeDesc| desc.probe())
}

/// The probes of an enumeration are as many as the records and stand in their
/// places: the probe in place `i` is that of record `i`. Nothing is sorted,
/// left out, merged or added, and without records there are no probes.
pub proof fn lemma_probes_of(records: Seq<DTraceProbeDesc>)
    ensures
        probes_of(records).len() == records.len(),
        forall|i: int| 0 <= i < records.len() ==> probes_of(records)[i] == records[i].probe(),
        records.len() == 0 ==> probes_of(records) == Seq::<ProbeView>::empty(),
{
    if records.len() == 0 {
        assert(probes_of(records) =~= Seq::<ProbeView>::empty());
    }
}

/// Represents a handle on the DTrace library. A value stands for an open
/// session: there is none unless the library has opened one, and the handle
/// in it is never null. A session cannot be copied, and nothing changes the
/// handle that it holds; it ends when the value is given up, which is when
/// its owner closes the handle with the library.
pub struct DTrace {
    dtp: usize,
}

/// What the enumeration does with one record of the library. The library
/// cannot be told to stop, so the answer asks for the next probe whatever the
/// record was. As long as the consumer has not failed, the probe in `pdp` is
/// copied into a description of its own and given to `sink`, once. After a
/// failure of the consumer, which the caller tells by `failed`, the record is
/// passed over and `sink` is left alone.
pub fn probe_iter_fn<S: ProbeSink>(
    pdp: &DTraceProbeDesc,
    sink: &mut S,
    failed: bool,
) -> (status: c_int)
    requires
        old(sink).ready(),
    ensures
        status == DTRACE_PROBE_NEXT,
        final(sink).ready(),
        !failed ==> final(sink).seen() == old(sink).seen().push(pdp.probe()),
        failed ==> *final(sink) == *old(sink),
{
    if !failed {
        sink.accept(Probe::from_desc(pdp));
    }
    DTRACE_PROBE_NEXT
}

impl DTrace {
    #[verifier::type_invariant]
    spec fn is_open(&self) -> bool {
        self.dtp != 0
    }

    /// The handle of the library for this session, as an address.
    pub closed spec fn handle(&self) -> usize {
        self.dtp
    }

    /// Makes the session out of what the library's open call gave back: the
    /// handle `dtp`, as an address, and the error code `err` that the call
    /// left. The call is to be made with `DTRACE_VERSION` and
    /// `DTRACE_OPEN_FLAGS`. A handle that is not null is an open session. With
    /// a null handle there is no session, and the error is the one that `err`
    /// stands for.
    pub fn open(dtp: usize, err: c_int) -> (session: Result<DTrace, Error>)
        ensures
            match session {
                Ok(trace) => dtp != 0 && trace.handle() == dtp,
                Err(e) => dtp == 0 && e == Error::spec_from_code(err),
            },
    {
        if dtp != 0 {
            Ok(DTrace { dtp })
        } else {
            Err(Error::from_code(err))
        }
    }

    /// The handle of the library, for the calls that need it. It is the one
    /// that the session was opened with, and not null.
    pub fn as_raw(&self) -> (dtp: usize)
        ensures
            dtp == self.handle(),
            dtp != 0,
    {
        proof {
            use_type_invariant(self);
        }
        self.dtp
    }

    /// Iterate over all probes in `records`, the records that the library
    /// hands over for this session: `sink` gets the probe of each record, one
    /// after the other in the order of the records, each once and each before
    /// the next record is looked at. No record is left out, none is merged
    /// with another, and none ends the enumeration. Without records `sink` is
    /// given nothing.
    pub fn probes<S: ProbeSink>(&self, records: &[DTraceProbeDesc], sink: &mut S)
        requires
            old(sink).ready(),
        ensures
            final(sink).ready(),
            final(sink).seen() == old(sink).seen() + probes_of(records@),
    {
        let mut i: usize = 0;
        while i < records.len()
            invariant
                i <= records@.len(),
                sink.ready(),
                sink.seen() == old(sink).seen() + probes_of(records@.take(i as int)),
            decreases records@.len() - i,
        {
            probe_iter_fn(&records[i], sink, false);
            assert(probes_of(records@.take(i as int)).push(records@[i as int].probe())
                =~= probes_of(records@.take(i + 1)));
            i = i + 1;
        }
        assert(records@.take(i as int) =~= records@);
    }
}

} // verus!
