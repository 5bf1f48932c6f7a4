//! The asynchronous client's own state, and the batch helper.

use vstd::prelude::*;

use std::sync::Arc;

use crate::config::Config;
use crate::error::PaintboardError;
use crate::models::common::{Pos, Rgb};
use crate::models::paint::{PaintResult, PaintStatus};

verus! {

/// The client: an HTTP provider, a WebSocket provider, the shared
/// configuration and a health flag that follows the outcome of operations.
pub struct AsyncClient<H, W> {
    pub http_client: H,
    pub ws_provider: W,
    pub config: Arc<Config>,
    pub healthy: bool,
}

impl<H, W> AsyncClient<H, W> {
    /// Whether the client currently counts as healthy.
    pub open spec fn spec_healthy(&self) -> bool {
        self.healthy
    }

    /// The configuration the client was made with.
    pub open spec fn spec_config(&self) -> Config {
        *self.config
    }

    /// A client made of its providers and configuration; it starts healthy.
    pub fn from_parts(http_client: H, ws_provider: W, config: Arc<Config>) -> (c: Self)
        ensures
            c.spec_healthy(),
            c.spec_config() == *config,
            c.http_client == http_client,
            c.ws_provider == ws_provider,
    {
        AsyncClient { http_client, ws_provider, config, healthy: true }
    }

    /// Passes an operation's result through, marking the client healthy on
    /// success and unhealthy on failure.
    pub fn handle_result<T>(&mut self, result: Result<T, PaintboardError>) -> (r: Result<T, PaintboardError>)
        ensures
            r == result,
            final(self).spec_healthy() == result is Ok,
            final(self).spec_config() == old(self).spec_config(),
            final(self).http_client == old(self).http_client,
            final(self).ws_provider == old(self).ws_provider,
    {
        match &result {
            Ok(_) => {
                if !self.is_healthy() {
                    self.reset_health();
                }
            },
            Err(_) => {
                self.mark_unhealthy();
            },
        }
        result
    }

    /// Marks the client unhealthy.
    pub fn mark_unhealthy(&mut self)
        ensures
            !final(self).spec_healthy(),
            final(self).spec_config() == old(self).spec_config(),
            final(self).http_client == old(self).http_client,
            final(self).ws_provider == old(self).ws_provider,
    {
        self.healthy = false;
    }

    /// Whether the client is healthy.
    pub fn is_healthy(&self) -> (h: bool)
        ensures
            h == self.spec_healthy(),
    {
        self.healthy
    }

    /// Marks the client healthy again.
    pub fn reset_health(&mut self)
        ensures
            final(self).spec_healthy(),
            final(self).spec_config() == old(self).spec_config(),
            final(self).http_client == old(self).http_client,
            final(self).ws_provider == old(self).ws_provider,
    {
        self.healthy = true;
    }

    /// The client's configuration.
    pub fn get_config(&self) -> (c: &Config)
        ensures
            *c == self.spec_config(),
    {
        &self.config
    }
}

/// Collects paint operations to send together, up to the configured batch size.
pub struct BatchHelper {
    config: Arc<Config>,
    operations: Vec<(Pos, Rgb)>,
}

/// The operations of a batch after adding `op` under the size limit `limit`.
pub open spec fn spec_after_add(ops: Seq<(Pos, Rgb)>, limit: usize, op: (Pos, Rgb)) -> Seq<(Pos, Rgb)> {
    if ops.len() >= limit {
        ops
    } else {
        ops.push(op)
    }
}

/// The operations of a batch after adding `added`, in order.
pub open spec fn spec_after_adds(ops: Seq<(Pos, Rgb)>, limit: usize, added: Seq<(Pos, Rgb)>) -> Seq<(Pos, Rgb)>
    decreases added.len(),
{
    if added.len() == 0 {
        ops
    } else {
        spec_after_add(spec_after_adds(ops, limit, added.drop_last()), limit, added.last())
    }
}

/// A batch started empty keeps the first `max_batch_size` operations added,
/// in the order they came, and refuses every later one.
pub proof fn law_batch_keeps_first_up_to_limit(limit: usize, added: Seq<(Pos, Rgb)>)
    ensures
        spec_after_adds(Seq::empty(), limit, added) == added.take(
            if added.len() < limit { added.len() as int } else { limit as int },
        ),
    decreases added.len(),
{
    if added.len() > 0 {
        law_batch_keeps_first_up_to_limit(limit, added.drop_last());
        let prev = added.drop_last();
        let k = if prev.len() < limit { prev.len() as int } else { limit as int };
        if prev.len() < limit {
            assert(added.take(k + 1) =~= prev.take(k).push(added.last()));
        } else {
            assert(added.take(limit as int) =~= prev.take(limit as int));
        }
    } else {
        assert(added.take(0) =~= Seq::<(Pos, Rgb)>::empty());
    }
}

impl BatchHelper {
    /// The operations collected so far.
    pub closed spec fn spec_operations(&self) -> Seq<(Pos, Rgb)> {
        self.operations@
    }

    /// The batch size limit.
    pub closed spec fn spec_limit(&self) -> usize {
        self.config.max_batch_size
    }

    /// An empty batch using the configuration's `max_batch_size`.
    pub fn new(config: Arc<Config>) -> (b: Self)
        ensures
            b.spec_operations() == Seq::<(Pos, Rgb)>::empty(),
            b.spec_limit() == config.max_batch_size,
    {
        BatchHelper { config, operations: Vec::new() }
    }

    /// Adds an operation; refused with `RateLimit` once the batch is full.
    pub fn add_paint(&mut self, pos: Pos, color: Rgb) -> (r: Result<(), PaintboardError>)
        ensures
            final(self).spec_limit() == old(self).spec_limit(),
            final(self).spec_operations() == spec_after_add(old(self).spec_operations(), old(self).spec_limit(), (pos, color)),
            old(self).spec_operations().len() >= old(self).spec_limit() ==> r == Err::<(), PaintboardError>(PaintboardError::RateLimit),
            old(self).spec_operations().len() < old(self).spec_limit() ==> r is Ok,
    {
        if self.operations.len() >= self.config.max_batch_size {
            return Err(PaintboardError::RateLimit);
        }
        self.operations.push((pos, color));
        Ok(())
    }

    /// Takes every collected operation and answers each with a success result
    /// whose id is its position in the batch; the batch is empty afterwards.
    pub fn execute_batch(&mut self) -> (r: Result<Vec<PaintResult>, PaintboardError>)
        ensures
            final(self).spec_operations() == Seq::<(Pos, Rgb)>::empty(),
            final(self).spec_limit() == old(self).spec_limit(),
            r matches Ok(v) && v@.len() == old(self).spec_operations().len() && forall|i: int| 0 <= i < v@.len() ==> {
                &&& (#[trigger] v@[i]).drawing_id == i as u32
                &&& v@[i].status == PaintStatus::Success
                &&& v@[i].message@ == "Batch operation successful"@
            },
    {
        let mut operations: Vec<(Pos, Rgb)> = Vec::new();
        std::mem::swap(&mut operations, &mut self.operations);
        let mut results: Vec<PaintResult> = Vec::new();
        let mut i: usize = 0;
        while i < operations.len()
            invariant
                i <= operations@.len(),
                results@.len() == i,
                forall|k: int| 0 <= k < i ==> {
                    &&& (#[trigger] results@[k]).drawing_id == k as u32
                    &&& results@[k].status == PaintStatus::Success
                    &&& results@[k].message@ == "Batch operation successful"@
                },
            decreases operations@.len() - i,
        {
            #[verifier::truncate]
            let id = i as u32;
            results.push(PaintResult {
                drawing_id: id,
                status: PaintStatus::Success,
                message: String::from_str("Batch operation successful"),
            });
            i = i + 1;
        }
        Ok(results)
    }

    /// Number of operations collected.
    pub fn pending_count(&self) -> (n: usize)
        ensures
            n == self.spec_operations().len(),
    {
        self.operations.len()
    }

    /// Drops every collected operation.
    pub fn clear(&mut self)
        ensures
            final(self).spec_operations() == Seq::<(Pos, Rgb)>::empty(),
            final(self).spec_limit() == old(self).spec_limit(),
    {
        self.operations.clear();
    }
}


/// The credentials a client holds, or the `Auth` error for the first missing
/// one ("UID not set", then "Token not set").
pub fn require_credentials(uid: Option<u32>, token: &Option<String>) -> (r: Result<(u32, String), PaintboardError>)
    ensures
        uid is None ==> (r matches Err(PaintboardError::Auth(m)) && m@ == "UID not set"@),
        uid is Some && token is None ==> (r matches Err(PaintboardError::Auth(m)) && m@ == "Token not set"@),
        uid is Some && token is Some ==> (r matches Ok((u, t)) && u == uid->0 && t@ == token->0@),
{
    let u = match uid {
        Some(u) => u,
        None => return Err(PaintboardError::Auth(String::from_str("UID not set"))),
    };
    match token {
        Some(t) => Ok((u, t.clone())),
        None => Err(PaintboardError::Auth(String::from_str("Token not set"))),
    }
}

} // verus!
