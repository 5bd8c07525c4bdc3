//! Which GPU the AMF probe targets. Left to itself the AMF runtime picks the iGPU on an
//! APU + dGPU machine; ffmpeg can only target an adapter by deriving AMF from a
//! `d3d11va` device, so the probe picks the adapter by its DXGI index.
use vstd::prelude::*;

use crate::capabilities::amf::AmfAdapter;
use crate::d3d11::{AdapterInfo, VENDOR_ID_AMD};
use crate::error::FFPipelineError;
use crate::text::{decimal, owned, push_decimal, push_str};

verus! {

/// An adapter AMF can run on: an AMD adapter that is not a software renderer.
pub open spec fn is_candidate(a: AdapterInfo) -> bool {
    a.vendor_id == VENDOR_ID_AMD && !a.is_software_spec()
}

/// At most one adapter is a candidate.
pub open spec fn sole_candidate(s: Seq<AdapterInfo>) -> bool {
    forall|i: int, j: int|
        0 <= i < s.len() && 0 <= j < s.len() && is_candidate(#[trigger] s[i]) && is_candidate(
            #[trigger] s[j],
        ) ==> i == j
}

/// The candidate at `i` has the LUID `luid`.
pub open spec fn luid_match_at(s: Seq<AdapterInfo>, luid: Seq<u8>, i: int) -> bool {
    0 <= i < s.len() && is_candidate(s[i]) && s[i].luid@ == luid
}

/// The candidate at `i` is the last of those with the most dedicated video memory.
pub open spec fn last_most_memory(s: Seq<AdapterInfo>, i: int) -> bool {
    &&& 0 <= i < s.len()
    &&& is_candidate(s[i])
    &&& forall|j: int|
        0 <= j < s.len() && is_candidate(#[trigger] s[j]) ==> s[j].dedicated_video_memory
            <= s[i].dedicated_video_memory
    &&& forall|j: int|
        i < j < s.len() && is_candidate(#[trigger] s[j]) ==> s[j].dedicated_video_memory
            < s[i].dedicated_video_memory
}

/// The adapter at `i` is the one to pick, given the LUID that Vulkan prefers: the only
/// candidate; else the first candidate with that LUID; else the last candidate with
/// the most dedicated memory, since an iGPU reserves far less than any discrete card.
pub open spec fn chosen_by(s: Seq<AdapterInfo>, hint: Option<[u8; 8]>, i: int) -> bool {
    &&& 0 <= i < s.len()
    &&& is_candidate(s[i])
    &&& (sole_candidate(s) || match hint {
        Some(l) => if exists|j: int| luid_match_at(s, l@, j) {
            luid_match_at(s, l@, i) && forall|j: int| 0 <= j < i ==> !luid_match_at(s, l@, j)
        } else {
            last_most_memory(s, i)
        },
        None => last_most_memory(s, i),
    })
}

fn luid_eq(a: &[u8; 8], b: &[u8; 8]) -> (r: bool)
    ensures
        r == (a@ == b@),
{
    let mut i: usize = 0;
    while i < 8
        invariant
            0 <= i <= 8,
            a@.len() == 8,
            b@.len() == 8,
            forall|j: int| 0 <= j < i ==> a@[j] == b@[j],
        decreases 8 - i,
    {
        if a[i] != b[i] {
            return false;
        }
        i = i + 1;
    }
    assert(a@ =~= b@);
    true
}

fn candidate(a: &AdapterInfo) -> (r: bool)
    ensures
        r == is_candidate(*a),
{
    a.vendor_id == VENDOR_ID_AMD && !a.is_software()
}

/// The first candidate and whether there is another.
fn first_candidate(adapters: &[AdapterInfo]) -> (r: (Option<usize>, bool))
    ensures
        r.0 is None ==> forall|j: int| 0 <= j < adapters@.len() ==> !is_candidate(#[trigger] adapters@[j]),
        r.0 matches Some(f) ==> f < adapters@.len() && is_candidate(adapters@[f as int]),
        r.0 is Some ==> (r.1 <==> !sole_candidate(adapters@)),
{
    let mut first: Option<usize> = None;
    let mut more = false;
    let mut i: usize = 0;
    while i < adapters.len()
        invariant
            0 <= i <= adapters@.len(),
            first is None ==> forall|j: int| 0 <= j < i ==> !is_candidate(#[trigger] adapters@[j]),
            first is None ==> !more,
            first matches Some(f) ==> f < i && is_candidate(adapters@[f as int]),
            first matches Some(f) ==> (!more ==> forall|j: int|
                0 <= j < i && is_candidate(#[trigger] adapters@[j]) ==> j == f),
            more ==> exists|a: int, b: int|
                0 <= a < b < i && is_candidate(#[trigger] adapters@[a]) && is_candidate(
                    #[trigger] adapters@[b],
                ),
        decreases adapters@.len() - i,
    {
        if candidate(&adapters[i]) {
            match first {
                None => {
                    first = Some(i);
                },
                Some(f) => {
                    assert(is_candidate(adapters@[f as int]) && is_candidate(adapters@[i as int]));
                    more = true;
                },
            }
        }
        i = i + 1;
    }
    if more {
        let ghost (a, b) = choose|a: int, b: int|
            0 <= a < b < i && is_candidate(#[trigger] adapters@[a]) && is_candidate(
                #[trigger] adapters@[b],
            );
        assert(!sole_candidate(adapters@));
    }
    (first, more)
}

/// The first candidate whose LUID is `luid`.
fn find_luid(adapters: &[AdapterInfo], luid: &[u8; 8]) -> (r: Option<usize>)
    ensures
        r is None ==> forall|j: int| !luid_match_at(adapters@, luid@, j),
        r matches Some(i) ==> luid_match_at(adapters@, luid@, i as int) && forall|j: int|
            0 <= j < i ==> !luid_match_at(adapters@, luid@, j),
{
    let mut i: usize = 0;
    while i < adapters.len()
        invariant
            0 <= i <= adapters@.len(),
            forall|j: int| 0 <= j < i ==> !luid_match_at(adapters@, luid@, j),
        decreases adapters@.len() - i,
    {
        if candidate(&adapters[i]) && luid_eq(&adapters[i].luid, luid) {
            return Some(i);
        }
        i = i + 1;
    }
    None
}

/// The last candidate with the most dedicated video memory.
fn most_memory(adapters: &[AdapterInfo], first: usize) -> (r: usize)
    requires
        first < adapters@.len(),
        is_candidate(adapters@[first as int]),
    ensures
        last_most_memory(adapters@, r as int),
{
    let mut best: usize = first;
    let mut i: usize = 0;
    while i < adapters.len()
        invariant
            0 <= i <= adapters@.len(),
            best < adapters@.len(),
            is_candidate(adapters@[best as int]),
            best < i || best == first,
            forall|j: int|
                0 <= j < i && is_candidate(#[trigger] adapters@[j]) ==> adapters@[j].dedicated_video_memory
                    <= adapters@[best as int].dedicated_video_memory,
            forall|j: int|
                best < j < i && is_candidate(#[trigger] adapters@[j]) ==> adapters@[j].dedicated_video_memory
                    < adapters@[best as int].dedicated_video_memory,
        decreases adapters@.len() - i,
    {
        if candidate(&adapters[i]) && adapters[i].dedicated_video_memory
            >= adapters[best].dedicated_video_memory {
            best = i;
        }
        i = i + 1;
    }
    best
}

/// The adapter to pick given the LUID that Vulkan prefers, if it named one; `None`
/// when no adapter is a candidate.
pub fn choose_with_hint(adapters: &[AdapterInfo], hint: Option<[u8; 8]>) -> (r: Option<
    &AdapterInfo,
>)
    ensures
        r is None <==> forall|j: int| 0 <= j < adapters@.len() ==> !is_candidate(#[trigger] adapters@[j]),
        r matches Some(a) ==> exists|i: int| chosen_by(adapters@, hint, i) && *a == adapters@[i],
{
    let (first, more) = first_candidate(adapters);
    let f = match first {
        None => return None,
        Some(f) => f,
    };
    if !more {
        return Some(&adapters[f]);
    }
    if let Some(luid) = hint {
        if let Some(i) = find_luid(adapters, &luid) {
            assert(chosen_by(adapters@, hint, i as int));
            return Some(&adapters[i]);
        }
    }
    let i = most_memory(adapters, f);
    assert(chosen_by(adapters@, hint, i as int));
    Some(&adapters[i])
}

/// The adapter to pick. `luid_hint` names the adapter Vulkan prefers; it is asked only
/// when more than one adapter is a candidate.
pub fn choose_adapter(adapters: &[AdapterInfo], luid_hint: impl FnOnce() -> Option<[u8; 8]>) -> (r: Option<
    &AdapterInfo,
>)
    requires
        !sole_candidate(adapters@) ==> call_requires(luid_hint, ()),
    ensures
        r is None <==> forall|j: int| 0 <= j < adapters@.len() ==> !is_candidate(#[trigger] adapters@[j]),
        sole_candidate(adapters@) ==> (r matches Some(a) ==> exists|i: int|
            chosen_by(adapters@, None, i) && *a == adapters@[i]),
        !sole_candidate(adapters@) ==> (r matches Some(a) ==> exists|h: Option<[u8; 8]>, i: int|
            call_ensures(luid_hint, (), h) && chosen_by(adapters@, h, i) && *a == adapters@[i]),
{
    let (first, more) = first_candidate(adapters);
    if first.is_none() || !more {
        return choose_with_hint(adapters, None);
    }
    let hint = luid_hint();
    choose_with_hint(adapters, hint)
}

/// Which adapter the AMF probe targets: the best AMD adapter, or one by DXGI index.
#[derive(Clone, Copy, Debug, PartialEq, Eq, Structural)]
pub enum AmfDeviceTarget {
    Auto,
    Adapter(u32),
}

/// The target as the operator wrote it: `Auto` or `Adapter(INDEX)`.
pub open spec fn target_text(target: AmfDeviceTarget) -> Seq<char> {
    match target {
        AmfDeviceTarget::Auto => "Auto"@,
        AmfDeviceTarget::Adapter(index) => "Adapter("@ + decimal(index as nat) + ")"@,
    }
}

impl AmfDeviceTarget {
    pub fn describe(&self) -> (r: String)
        ensures
            r@ == target_text(*self),
    {
        match self {
            AmfDeviceTarget::Auto => owned("Auto"),
            AmfDeviceTarget::Adapter(index) => {
                let mut r = owned("Adapter(");
                push_decimal(&mut r, *index as u64);
                push_str(&mut r, ")");
                r
            },
        }
    }
}

/// What a failed DXGI step leads to: with an explicit index, the error `message`, since
/// falling back would silently move to another GPU; otherwise no adapter, which lets
/// the runtime pick one as ffmpeg does without a derived device.
pub fn on_step_failure<T>(target: &AmfDeviceTarget, message: String) -> (r: Result<
    Option<T>,
    FFPipelineError,
>)
    ensures
        match *target {
            AmfDeviceTarget::Auto => r matches Ok(None),
            AmfDeviceTarget::Adapter(_) => r matches Err(FFPipelineError::AmfCapabilitiesError(m))
                && m@ == message@,
        },
{
    match target {
        AmfDeviceTarget::Auto => Ok(None),
        AmfDeviceTarget::Adapter(_) => Err(FFPipelineError::AmfCapabilitiesError(message)),
    }
}

/// The message for a DXGI step that failed with `cause` while `target` was requested.
pub fn requested_but(target: &AmfDeviceTarget, cause: &str) -> (r: String)
    ensures
        r@ == target_text(*target) + " requested but "@ + cause@,
{
    let mut r = target.describe();
    push_str(&mut r, " requested but ");
    push_str(&mut r, cause);
    r
}

/// The message for an explicit index that no adapter has.
pub open spec fn not_found_text(index: u32, count: nat) -> Seq<char> {
    "amf_device "@ + decimal(index as nat) + " not found ("@ + decimal(count) + " adapters present)"@
}

/// The adapter the target names among the enumerated ones. An explicit index must
/// exist, whatever its vendor; otherwise the choice of [`choose_adapter`], where no
/// candidate leaves the pick to the runtime.
pub fn target_adapter<'a>(
    target: &AmfDeviceTarget,
    adapters: &'a [AdapterInfo],
    luid_hint: impl FnOnce() -> Option<[u8; 8]>,
) -> (r: Result<Option<&'a AdapterInfo>, FFPipelineError>)
    requires
        *target == AmfDeviceTarget::Auto && !sole_candidate(adapters@) ==> call_requires(
            luid_hint,
            (),
        ),
    ensures
        match *target {
            AmfDeviceTarget::Adapter(index) => {
                &&& (exists|i: int| 0 <= i < adapters@.len() && adapters@[i].index == index) <==> r is Ok
                &&& r matches Ok(found) ==> found matches Some(a) && exists|i: int|
                    0 <= i < adapters@.len() && adapters@[i] == *a && a.index == index && forall|j: int|
                        0 <= j < i ==> adapters@[j].index != index
                &&& r matches Err(e) ==> e matches FFPipelineError::AmfCapabilitiesError(m) && m@
                    == not_found_text(index, adapters@.len())
            },
            AmfDeviceTarget::Auto => r matches Ok(found) && {
                &&& found is None <==> forall|j: int|
                    0 <= j < adapters@.len() ==> !is_candidate(#[trigger] adapters@[j])
                &&& sole_candidate(adapters@) ==> (found matches Some(a) ==> exists|i: int|
                    chosen_by(adapters@, None, i) && *a == adapters@[i])
                &&& !sole_candidate(adapters@) ==> (found matches Some(a) ==> exists|
                    h: Option<[u8; 8]>,
                    i: int,
                | call_ensures(luid_hint, (), h) && chosen_by(adapters@, h, i) && *a
                    == adapters@[i])
            },
        },
{
    match target {
        AmfDeviceTarget::Adapter(index) => {
            let mut i: usize = 0;
            while i < adapters.len()
                invariant
                    0 <= i <= adapters@.len(),
                    *target == AmfDeviceTarget::Adapter(*index),
                    forall|j: int| 0 <= j < i ==> adapters@[j].index != *index,
                decreases adapters@.len() - i,
            {
                if adapters[i].index == *index {
                    assert(adapters@[i as int].index == *index);
                    return Ok(Some(&adapters[i]));
                }
                i = i + 1;
            }
            let mut m = owned("amf_device ");
            push_decimal(&mut m, *index as u64);
            push_str(&mut m, " not found (");
            push_decimal(&mut m, adapters.len() as u64);
            push_str(&mut m, " adapters present)");
            Err(FFPipelineError::AmfCapabilitiesError(m))
        },
        AmfDeviceTarget::Auto => {
            Ok(choose_adapter(adapters, luid_hint))
        },
    }
}

/// The probed adapter as the capabilities report it.
pub fn adapter_summary(a: &AdapterInfo) -> (r: AmfAdapter)
    ensures
        r.index == a.index,
        r.description@ == a.description@,
        r.vendor_id == a.vendor_id,
        r.device_id == a.device_id,
{
    AmfAdapter {
        index: a.index,
        description: a.description.clone(),
        vendor_id: a.vendor_id,
        device_id: a.device_id,
    }
}

/// How the DXGI side failed before any adapter could be looked at.
#[derive(Debug)]
pub enum DxgiFailure {
    /// dxgi.dll or d3d11.dll could not be loaded.
    Load(String),
    /// The adapters could not be enumerated.
    Enumerate(String),
}

/// The adapter at `i` as the capabilities report it.
pub open spec fn summarises(a: AmfAdapter, info: AdapterInfo) -> bool {
    a.index == info.index && a.description@ == info.description@ && a.vendor_id == info.vendor_id
        && a.device_id == info.device_id
}

/// The adapter at `i` is the first one enumerated at DXGI index `index`.
pub open spec fn first_at_index(adapters: Seq<AdapterInfo>, index: u32, i: int) -> bool {
    0 <= i < adapters.len() && adapters[i].index == index && forall|j: int|
        0 <= j < i ==> adapters[j].index != index
}

/// The adapter at `i` is the automatic choice, made with what `luid_hint` answered when
/// it had to be asked (several candidates), and without asking it otherwise.
pub open spec fn auto_choice<H: FnOnce() -> Option<[u8; 8]>>(
    adapters: Seq<AdapterInfo>,
    luid_hint: H,
    i: int,
) -> bool {
    if sole_candidate(adapters) {
        chosen_by(adapters, None, i)
    } else {
        exists|h: Option<[u8; 8]>| call_ensures(luid_hint, (), h) && chosen_by(adapters, h, i)
    }
}

/// The adapter the AMF probe runs on, and the device created on it. `dxgi` is what
/// loading DXGI and enumerating its adapters gave; `create_device` creates a D3D11
/// device on an adapter index. For the automatic target every failure, and finding no
/// AMD adapter, gives `Ok(None)`: the runtime then picks, as ffmpeg does without a
/// derived device. An explicit index that cannot be used is an error, since falling
/// back would silently move to another GPU; every error is an AMF capabilities error.
pub fn select_adapter<'a, D, H: FnOnce() -> Option<[u8; 8]>>(
    target: &AmfDeviceTarget,
    dxgi: Result<&'a [AdapterInfo], DxgiFailure>,
    luid_hint: H,
    create_device: impl FnOnce(u32) -> Result<D, String>,
) -> (r: Result<Option<(AmfAdapter, D)>, FFPipelineError>)
    requires
        forall|i: u32| call_requires(create_device, (i,)),
        *target == AmfDeviceTarget::Auto && (dxgi matches Ok(adapters) && !sole_candidate(
            adapters@,
        )) ==> call_requires(luid_hint, ()),
    ensures
        r is Err ==> r matches Err(FFPipelineError::AmfCapabilitiesError(_)),
        dxgi matches Err(DxgiFailure::Load(e)) ==> match *target {
            AmfDeviceTarget::Auto => r matches Ok(None),
            AmfDeviceTarget::Adapter(_) => r matches Err(FFPipelineError::AmfCapabilitiesError(m))
                && m@ == target_text(*target) + " requested but "@ + ("DXGI is unavailable: "@
                + e@),
        },
        dxgi matches Err(DxgiFailure::Enumerate(e)) ==> match *target {
            AmfDeviceTarget::Auto => r matches Ok(None),
            AmfDeviceTarget::Adapter(_) => r matches Err(FFPipelineError::AmfCapabilitiesError(m))
                && m@ == target_text(*target) + " requested but "@ + e@,
        },
        dxgi matches Ok(adapters) ==> match *target {
            AmfDeviceTarget::Auto => {
                &&& r is Ok
                &&& r matches Ok(Some((a, d))) ==> exists|i: int|
                    0 <= i < adapters@.len() && auto_choice(adapters@, luid_hint, i) && summarises(
                        a,
                        adapters@[i],
                    ) && call_ensures(create_device, (adapters@[i].index,), Ok(d))
                &&& r matches Ok(None) ==> (forall|j: int|
                    0 <= j < adapters@.len() ==> !is_candidate(#[trigger] adapters@[j]))
                    || exists|i: int, e: String|
                    0 <= i < adapters@.len() && auto_choice(adapters@, luid_hint, i)
                        && call_ensures(create_device, (adapters@[i].index,), Err(e))
            },
            AmfDeviceTarget::Adapter(index) => if exists|i: int| first_at_index(adapters@, index, i) {
                &&& !(r matches Ok(None))
                &&& r matches Ok(Some((a, d))) ==> exists|i: int|
                    first_at_index(adapters@, index, i) && summarises(a, adapters@[i])
                        && call_ensures(create_device, (index,), Ok(d))
                &&& r matches Err(FFPipelineError::AmfCapabilitiesError(m)) ==> exists|e: String|
                    call_ensures(create_device, (index,), Err(e)) && m@ == e@
            } else {
                r matches Err(FFPipelineError::AmfCapabilitiesError(m)) && m@ == not_found_text(
                    index,
                    adapters@.len(),
                )
            },
        },
{
    let adapters = match dxgi {
        Err(DxgiFailure::Load(e)) => {
            let mut cause = owned("DXGI is unavailable: ");
            push_str(&mut cause, e.as_str());
            return on_step_failure(target, requested_but(target, cause.as_str()));
        },
        Err(DxgiFailure::Enumerate(e)) => {
            return on_step_failure(target, requested_but(target, e.as_str()));
        },
        Ok(adapters) => adapters,
    };
    let chosen = match target_adapter(target, adapters, luid_hint) {
        Err(e) => return Err(e),
        Ok(None) => return Ok(None),
        Ok(Some(a)) => a,
    };
    let ghost wit = choose|i: int|
        0 <= i < adapters@.len() && adapters@[i] == *chosen && match *target {
            AmfDeviceTarget::Adapter(index) => first_at_index(adapters@, index, i),
            AmfDeviceTarget::Auto => auto_choice(adapters@, luid_hint, i),
        };
    match create_device(chosen.index) {
        Ok(device) => {
            let summary = adapter_summary(chosen);
            assert(summarises(summary, adapters@[wit]));
            Ok(Some((summary, device)))
        },
        Err(e) => {
            proof {
                if *target == AmfDeviceTarget::Auto {
                    assert(is_candidate(adapters@[wit]));
                }
            }
            on_step_failure(target, e)
        },
    }
}

} // verus!
