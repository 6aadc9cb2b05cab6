//! The network handle: loading, in-place training and inference steps, and
//! single-shot release.

use vstd::prelude::*;

verus! {

use crate::errors::Error;
use crate::image::Image;
use crate::marshal::{contains_nul, marshal, marshaled};

/// Owns one engine network handle.
///
/// The handle is non-null from construction on, and the only way to release
/// it is `free_network`, which consumes the owner: a second release of the
/// same handle cannot be written.
pub struct Network {
    handle: u64,
}

impl Network {
    /// The engine handle this wrapper owns.
    pub closed spec fn id(self) -> u64 {
        self.handle
    }

    /// A constructed network always carries a non-null handle.
    pub open spec fn wf(self) -> bool {
        self.id() != 0
    }

    /// The raw handle value, for the driver that performs native calls.
    pub fn raw(&self) -> (h: u64)
        ensures
            h == self.id(),
    {
        self.handle
    }
}

/// Describes one native network-load call: marshaled configuration path,
/// optionally marshaled weights path (`None` is the engine's "no weights"
/// sentinel), and the clear flag as the engine's integer convention.
pub struct LoadNetworkCall {
    /// Nul-terminated configuration file path.
    pub config: Vec<u8>,
    /// Nul-terminated weights file path, or `None` for the null sentinel.
    pub weights: Option<Vec<u8>>,
    /// 1 to clear the loaded weights, 0 to keep them.
    pub clear: i32,
}

/// Plans the native network-load call from a configuration path and an
/// optional weights path.
///
/// Both paths are marshaled before anything else happens; text with an
/// embedded zero byte fails with `MarshalError`.  A missing weights path is
/// never marshaled: the plan carries the engine's null sentinel instead.
pub fn load_network(config_path: &Vec<u8>, weights_path: Option<&Vec<u8>>, clear: bool) -> (r:
    Result<LoadNetworkCall, Error>)
    ensures
        r is Ok <==> (!contains_nul(config_path@) && (weights_path matches Some(w)
            ==> !contains_nul(w@))),
        r matches Ok(c) ==> c.config@ == marshaled(config_path@),
        r matches Ok(c) ==> c.clear == if clear {
            1int
        } else {
            0int
        },
        r matches Ok(c) ==> (weights_path is None <==> c.weights is None),
        r matches Ok(c) ==> (weights_path matches Some(w) ==> c.weights matches Some(cw) && cw@
            == marshaled(w@)),
        r matches Err(e) ==> e == Error::MarshalError,
{
    let config = match marshal(config_path) {
        Ok(c) => c,
        Err(e) => {
            return Err(e);
        },
    };
    let weights = match weights_path {
        Some(w) => match marshal(w) {
            Ok(cw) => Some(cw),
            Err(e) => {
                return Err(e);
            },
        },
        None => None,
    };
    let clear_flag: i32 = if clear {
        1
    } else {
        0
    };
    Ok(LoadNetworkCall { config, weights, clear: clear_flag })
}

/// Interprets the raw handle the engine returned for a load: a null handle
/// is the engine's failure sentinel and becomes `LoadError`; anything else
/// becomes the single owner of that handle.
pub fn network_from_raw(handle: u64) -> (r: Result<Network, Error>)
    ensures
        r is Ok <==> handle != 0,
        r matches Ok(n) ==> n.id() == handle && n.wf(),
        r matches Err(e) ==> e == Error::LoadError,
{
    if handle == 0 {
        Err(Error::LoadError)
    } else {
        Ok(Network { handle })
    }
}

/// The in-place network operations the engine offers; each one mutates the
/// engine's internal buffers, never the wrapper.
#[derive(Clone, Copy, Debug, PartialEq, Eq, Structural)]
pub enum NetworkOp {
    /// One forward pass.
    Forward,
    /// One backward pass.
    Backward,
    /// One parameter update.
    Update,
}

/// Describes one native in-place call on a network handle.
pub struct NetworkCall {
    /// Which operation to perform.
    pub op: NetworkOp,
    /// The handle of the network it runs on.
    pub net: u64,
}

/// Plans a forward pass over the network's current input buffer.
pub fn forward_network(network: &mut Network) -> (c: NetworkCall)
    requires
        old(network).wf(),
    ensures
        *final(network) == *old(network),
        c.op == NetworkOp::Forward,
        c.net == old(network).id(),
{
    NetworkCall { op: NetworkOp::Forward, net: network.handle }
}

/// Plans a backward pass.
pub fn backward_network(network: &mut Network) -> (c: NetworkCall)
    requires
        old(network).wf(),
    ensures
        *final(network) == *old(network),
        c.op == NetworkOp::Backward,
        c.net == old(network).id(),
{
    NetworkCall { op: NetworkOp::Backward, net: network.handle }
}

/// Plans a parameter update from the gradients of the last backward pass.
pub fn update_network(network: &mut Network) -> (c: NetworkCall)
    requires
        old(network).wf(),
    ensures
        *final(network) == *old(network),
        c.op == NetworkOp::Update,
        c.net == old(network).id(),
{
    NetworkCall { op: NetworkOp::Update, net: network.handle }
}

/// Describes one native batch-size change.
pub struct SetBatchCall {
    /// The handle of the network to reconfigure.
    pub net: u64,
    /// The new batch size; always at least 1.
    pub batch: i32,
}

/// Plans a batch-size change; a batch size below 1 is rejected before the
/// boundary with `InvalidArgument`.
pub fn set_batch_network(network: &mut Network, batch: i32) -> (r: Result<SetBatchCall, Error>)
    requires
        old(network).wf(),
    ensures
        *final(network) == *old(network),
        r is Ok <==> batch >= 1,
        r matches Ok(c) ==> c.net == old(network).id() && c.batch == batch,
        r matches Err(e) ==> e == Error::InvalidArgument,
{
    if batch < 1 {
        return Err(Error::InvalidArgument);
    }
    Ok(SetBatchCall { net: network.handle, batch })
}

/// Describes one native prediction call: run the network forward on the
/// image's pixel buffer.
pub struct PredictCall {
    /// The handle of the network that predicts.
    pub net: u64,
    /// The handle of the image it reads.
    pub image: u64,
}

/// Plans a prediction over one image.  The network is mutated in place by
/// the engine; the image is only read.
pub fn predict_image(network: &mut Network, image: &Image) -> (c: PredictCall)
    requires
        old(network).wf(),
        image.wf(),
    ensures
        *final(network) == *old(network),
        c.net == old(network).id(),
        c.image == image.id(),
{
    PredictCall { net: network.handle, image: image.raw() }
}

/// Describes the one release call a network handle ever gets.
pub struct FreeNetworkCall {
    /// The handle to free.
    pub net: u64,
}

/// Releases the network: consumes the owner and yields the single free call
/// for its handle.  With the owner gone, no further call can name the
/// handle, so release happens at most once per handle.
pub fn free_network(network: Network) -> (c: FreeNetworkCall)
    ensures
        c.net == network.id(),
{
    FreeNetworkCall { net: network.handle }
}

} // verus!
