//! The choice between the GPU renderer and the CPU renderer.

use vstd::prelude::*;
use vstd::string::*;

verus! {

/// What kind of device a graphics adapter is.
#[derive(Clone, Copy, Debug, PartialEq, Eq, Structural)]
pub enum DeviceKind {
    Discrete,
    Integrated,
    Virtual,
    Cpu,
    Other,
}

/// A graphics adapter that was found.
#[derive(Debug)]
pub struct Adapter {
    pub name: String,
    pub kind: DeviceKind,
}

/// The renderer to use, and why.
#[derive(Debug)]
pub struct RendererChoice {
    pub use_gpu: bool,
    pub info: String,
}

/// The name of the last adapter of kind `kind` among `adapters`, if there
/// is one.
pub open spec fn last_of_kind(adapters: Seq<Adapter>, kind: DeviceKind) -> Option<Seq<char>>
    decreases adapters.len(),
{
    if adapters.len() == 0 {
        None
    } else if adapters.last().kind == kind {
        Some(adapters.last().name@)
    } else {
        last_of_kind(adapters.drop_last(), kind)
    }
}

/// Whether the GPU renderer is chosen: if a dedicated GPU was found.
pub open spec fn gpu_chosen(adapters: Seq<Adapter>) -> bool {
    last_of_kind(adapters, DeviceKind::Discrete) is Some
}

/// The reason that goes with the choice.
pub open spec fn choice_info(adapters: Seq<Adapter>) -> Seq<char> {
    if adapters.len() == 0 {
        "No GPU found"@
    } else {
        match last_of_kind(adapters, DeviceKind::Discrete) {
            Some(name) => name + " (Dedicated)"@,
            None => match last_of_kind(adapters, DeviceKind::Integrated) {
                Some(name) => name + " (iGPU - disabled to save CPU)"@,
                None => "No suitable GPU"@,
            },
        }
    }
}

fn find_last(adapters: &Vec<Adapter>, kind: DeviceKind) -> (found: Option<usize>)
    ensures
        match found {
            Some(i) => i < adapters@.len() && last_of_kind(adapters@, kind) == Some(
                adapters@[i as int].name@,
            ),
            None => last_of_kind(adapters@, kind) is None,
        },
{
    let mut i: usize = adapters.len();
    assert(adapters@.take(i as int) =~= adapters@);
    while i > 0
        invariant
            i <= adapters@.len(),
            last_of_kind(adapters@, kind) == last_of_kind(adapters@.take(i as int), kind),
        decreases i,
    {
        proof {
            assert(adapters@.take(i as int).drop_last() =~= adapters@.take(i - 1));
            assert(adapters@.take(i as int).last() == adapters@[i - 1]);
        }
        i = i - 1;
        if adapters[i].kind == kind {
            return Some(i);
        }
    }
    assert(adapters@.take(0).len() == 0);
    None
}

/// Chooses the renderer from the adapters that were found. A dedicated GPU
/// is used; an integrated one is not, to spare the CPU.
pub fn should_use_gpu(adapters: &Vec<Adapter>) -> (choice: RendererChoice)
    ensures
        choice.use_gpu == gpu_chosen(adapters@),
        choice.info@ == choice_info(adapters@),
{
    if adapters.len() == 0 {
        return RendererChoice { use_gpu: false, info: String::from_str("No GPU found") };
    }
    match find_last(adapters, DeviceKind::Discrete) {
        Some(i) => {
            let mut info = adapters[i].name.clone();
            info.append(" (Dedicated)");
            RendererChoice { use_gpu: true, info }
        },
        None => match find_last(adapters, DeviceKind::Integrated) {
            Some(i) => {
                let mut info = adapters[i].name.clone();
                info.append(" (iGPU - disabled to save CPU)");
                RendererChoice { use_gpu: false, info }
            },
            None => RendererChoice { use_gpu: false, info: String::from_str("No suitable GPU") },
        },
    }
}

} // verus!
