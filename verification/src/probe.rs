//! Probes: the record in which the DTrace library describes one, and the owned
//! description that is made of it.

use crate::text::{cstring_from_bytes, text_of, CText};
use vstd::prelude::*;

verus! {

/// Identifier of a probe.
pub type DTraceProbeID = u32;

/// Size of the buffer that holds a provider name.
pub const DTRACE_PROVNAMELEN: usize = 64;

/// Size of the buffer that holds a module name.
pub const DTRACE_MODNAMELEN: usize = 64;

/// Size of the buffer that holds a function name.
pub const DTRACE_FUNCNAMELEN: usize = 192;

/// Size of the buffer that holds a probe name.
pub const DTRACE_NAMELEN: usize = 64;

/// One probe as the library hands it over: the identifier and four name
/// buffers, each padded with zero bytes.
pub struct DTraceProbeDesc {
    /// Probe Identifier
    pub dtpd_id: DTraceProbeID,
    /// Probe provider name
    pub dtpd_provider: [u8; DTRACE_PROVNAMELEN],
    /// Probe module name
    pub dtpd_mod: [u8; DTRACE_MODNAMELEN],
    /// Probe function name
    pub dtpd_func: [u8; DTRACE_FUNCNAMELEN],
    /// Probe name
    pub dtpd_name: [u8; DTRACE_NAMELEN],
}

/// What a probe is: its identifier and its four names.
pub struct ProbeView {
    pub id: DTraceProbeID,
    pub provider: Seq<u8>,
    pub func: Seq<u8>,
    pub module: Seq<u8>,
    pub name: Seq<u8>,
}

impl DTraceProbeDesc {
    /// The probe that the record describes: the identifier as it stands, and
    /// of each buffer the text that it holds.
    pub open spec fn probe(&self) -> ProbeView {
        ProbeView {
            id: self.dtpd_id,
            provider: text_of(self.dtpd_provider@),
            func: text_of(self.dtpd_func@),
            module: text_of(self.dtpd_mod@),
            name: text_of(self.dtpd_name@),
        }
    }
}

/// One instrumentation point, named by provider, module, function and name.
#[derive(Debug, PartialEq)]
pub struct Probe {
    id: DTraceProbeID,
    provider: CText,
    func: CText,
    module: CText,
    name: CText,
}

impl View for Probe {
    type V = ProbeView;

    closed spec fn view(&self) -> ProbeView {
        ProbeView {
            id: self.id,
            provider: self.provider@,
            func: self.func@,
            module: self.module@,
            name: self.name@,
        }
    }
}

impl Clone for Probe {
    fn clone(&self) -> (probe: Self)
        ensures
            probe@ == self@,
    {
        Probe {
            id: self.id,
            provider: self.provider.clone(),
            func: self.func.clone(),
            module: self.module.clone(),
            name: self.name.clone(),
        }
    }
}

impl Probe {
    /// Makes the owned description of the probe in `desc`. Nothing of `desc`
    /// is kept: the identifier is copied, and so is the text of each buffer.
    pub fn from_desc(desc: &DTraceProbeDesc) -> (probe: Probe)
        ensures
            probe@ == desc.probe(),
    {
        let id: DTraceProbeID = desc.dtpd_id;
        let provider = cstring_from_bytes(&desc.dtpd_provider);
        let func = cstring_from_bytes(&desc.dtpd_func);
        let module = cstring_from_bytes(&desc.dtpd_mod);
        let name = cstring_from_bytes(&desc.dtpd_name);
        Probe { id, provider, func, module, name }
    }

    /// The identifier of the probe.
    pub fn id(&self) -> (id: DTraceProbeID)
        ensures
            id == self@.id,
    {
        self.id
    }

    /// The name of the provider.
    pub fn provider(&self) -> (text: &CText)
        ensures
            text@ == self@.provider,
    {
        &self.provider
    }

    /// The name of the function.
    pub fn func(&self) -> (text: &CText)
        ensures
            text@ == self@.func,
    {
        &self.func
    }

    /// The name of the module.
    pub fn module(&self) -> (text: &CText)
        ensures
            text@ == self@.module,
    {
        &self.module
    }

    /// The name of the probe.
    pub fn name(&self) -> (text: &CText)
        ensures
            text@ == self@.name,
    {
        &self.name
    }
}

} // verus!
