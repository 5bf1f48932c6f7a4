use vstd::prelude::*;

use std::collections::HashMap;

verus! {

broadcast use vstd::std_specs::hash::group_hash_axioms;

/// Whether a request registered at `registered` has waited longer than
/// `timeout` at time `now` (all in milliseconds; a clock that went back
/// counts as no time passed).
pub open spec fn spec_expired(registered: u64, now: u64, timeout: u64) -> bool {
    now > registered && now - registered > timeout
}

/// The ids whose requests have expired.
pub open spec fn spec_expired_ids<T>(m: Map<u32, (T, u64)>, now: u64, timeout: u64) -> Set<u32> {
    m.dom().filter(|id: u32| spec_expired(m[id].1, now, timeout))
}

/// Pending paint requests: for each paint id, the handle that receives its
/// result and the time (ms) it was registered.
pub struct WsResponseTracker<T> {
    channels: HashMap<u32, (T, u64)>,
}

impl<T> View for WsResponseTracker<T> {
    type V = Map<u32, (T, u64)>;

    closed spec fn view(&self) -> Map<u32, (T, u64)> {
        self.channels@
    }
}

impl<T> WsResponseTracker<T> {
    /// A tracker with no pending request.
    pub fn new_local() -> (t: Self)
        ensures
            t@ == Map::<u32, (T, u64)>::empty(),
    {
        WsResponseTracker { channels: HashMap::new() }
    }

    /// Registers the request `paint_id`, replacing an earlier one with the same id.
    pub fn register_request(&mut self, paint_id: u32, handle: T, now: u64)
        ensures
            final(self)@ == old(self)@.insert(paint_id, (handle, now)),
    {
        self.channels.insert(paint_id, (handle, now));
    }

    /// Takes the handle of request `paint_id` out of the tracker, if it is pending.
    pub fn complete_request(&mut self, paint_id: u32) -> (h: Option<T>)
        ensures
            final(self)@ == old(self)@.remove(paint_id),
            match h {
                Some(v) => old(self)@.contains_key(paint_id) && v == old(self)@[paint_id].0,
                None => !old(self)@.contains_key(paint_id),
            },
    {
        match self.channels.remove(&paint_id) {
            Some((handle, _)) => Some(handle),
            None => None,
        }
    }

    /// Drops request `paint_id`; says whether it was pending.
    pub fn remove_request(&mut self, paint_id: u32) -> (found: bool)
        ensures
            final(self)@ == old(self)@.remove(paint_id),
            found == old(self)@.contains_key(paint_id),
    {
        self.channels.remove(&paint_id).is_some()
    }

    /// Number of pending requests.
    pub fn pending_count(&self) -> (n: usize)
        ensures
            n == self@.dom().len(),
    {
        self.channels.len()
    }

    /// Removes every request that has waited longer than `timeout` and hands
    /// back their ids and handles, each once.
    pub fn cleanup_expired_requests(&mut self, now: u64, timeout: u64) -> (removed: Vec<(u32, T)>)
        ensures
            final(self)@ == old(self)@.remove_keys(spec_expired_ids(old(self)@, now, timeout)),
            removed@.map_values(|p: (u32, T)| p.0).to_set() == spec_expired_ids(old(self)@, now, timeout),
            removed@.map_values(|p: (u32, T)| p.0).no_duplicates(),
            forall|i: int| 0 <= i < removed@.len() ==> #[trigger] removed@[i].1 == old(self)@[removed@[i].0].0,
    {
        let ghost old_map = self.channels@;
        let ghost expired = spec_expired_ids(old_map, now, timeout);
        let mut keys: Vec<u32> = Vec::new();
        for k in it: self.channels.keys()
            invariant
                keys@.len() == it.index(),
                forall|j: int| 0 <= j < it.index() ==> keys@[j] == *it.seq()[j],
            ensures
                keys@ =~= it.seq().unref(),
        {
            keys.push(*k);
        }
        assert(keys@.to_set() =~= old_map.dom());
        let mut removed: Vec<(u32, T)> = Vec::new();
        let mut i: usize = 0;
        while i < keys.len()
            invariant
                i <= keys@.len(),
                keys@.to_set() == old_map.dom(),
                keys@.no_duplicates(),
                old_map == old(self).channels@,
                expired == spec_expired_ids(old_map, now, timeout),
                self.channels@ == old_map.remove_keys(expired.intersect(keys@.take(i as int).to_set())),
                removed@.map_values(|p: (u32, T)| p.0).to_set() == expired.intersect(keys@.take(i as int).to_set()),
                removed@.map_values(|p: (u32, T)| p.0).no_duplicates(),
                forall|j: int| 0 <= j < removed@.len() ==> #[trigger] removed@[j].1 == old_map[removed@[j].0].0,
                forall|j: int| 0 <= j < removed@.len() ==> keys@.take(i as int).contains(#[trigger] removed@[j].0),
            decreases keys@.len() - i,
        {
            let k = keys[i];
            let ghost prev = removed@;
            assert(keys@.contains(k));
            assert(old_map.dom().contains(k));
            assert(keys@.take(i + 1) =~= keys@.take(i as int).push(k));
            assert(!keys@.take(i as int).contains(k)) by {
                if keys@.take(i as int).contains(k) {
                    let j = choose|j: int| 0 <= j < i && keys@.take(i as int)[j] == k;
                    assert(keys@[j] == keys@[i as int]);
                }
            }
            let is_expired = match self.channels.get(&k) {
                Some(entry) => now > entry.1 && now - entry.1 > timeout,
                None => false,
            };
            if is_expired {
                match self.channels.remove(&k) {
                    Some((handle, _)) => {
                        removed.push((k, handle));
                    },
                    None => {},
                }
            }
            proof {
                let s_old = expired.intersect(keys@.take(i as int).to_set());
                let s_new = expired.intersect(keys@.take(i + 1).to_set());
                let t0 = keys@.take(i as int);
                let t1 = keys@.take(i + 1);
                assert(t1 =~= t0.push(k));
                lemma_push_to_set(t0, k);
                assert forall|j: int| 0 <= j < removed@.len() implies t1.contains(#[trigger] removed@[j].0) by {
                    if j < prev.len() {
                        assert(prev[j] == removed@[j]);
                        assert(t0.contains(prev[j].0));
                        let m = choose|m: int| 0 <= m < t0.len() && t0[m] == prev[j].0;
                        assert(t1[m] == prev[j].0);
                    } else {
                        assert(removed@[j].0 == k);
                        assert(t1[t0.len() as int] == k);
                    }
                }
                if expired.contains(k) {
                    assert(s_new =~= s_old.insert(k));
                    assert(removed@.map_values(|p: (u32, T)| p.0) =~= prev.map_values(|p: (u32, T)| p.0).push(k));
                    lemma_push_to_set(prev.map_values(|p: (u32, T)| p.0), k);
                    assert(!prev.map_values(|p: (u32, T)| p.0).contains(k));
                } else {
                    assert(s_new =~= s_old);
                }
                assert(self.channels@ =~= old_map.remove_keys(s_new));
            }
            i = i + 1;
        }
        proof {
            assert(keys@.take(keys@.len() as int) =~= keys@);
            assert(expired.intersect(keys@.to_set()) =~= expired);
        }
        removed
    }
}

proof fn lemma_push_to_set<A>(s: Seq<A>, x: A)
    ensures
        s.push(x).to_set() == s.to_set().insert(x),
{
    let t = s.push(x);
    assert forall|y: A| #[trigger] t.contains(y) <==> (s.contains(y) || y == x) by {
        if t.contains(y) {
            let j = choose|j: int| 0 <= j < t.len() && t[j] == y;
            if j < s.len() {
                assert(s[j] == y);
            }
        }
        if s.contains(y) {
            let j = choose|j: int| 0 <= j < s.len() && s[j] == y;
            assert(t[j] == y);
        }
        if y == x {
            assert(t[s.len() as int] == y);
        }
    }
    assert(t.to_set() =~= s.to_set().insert(x));
}

/// A request that is registered can be completed once, and completing it
/// again finds nothing.
pub proof fn law_complete_after_register<T>(m: Map<u32, (T, u64)>, id: u32, handle: T, now: u64)
    ensures
        m.insert(id, (handle, now)).contains_key(id),
        m.insert(id, (handle, now))[id].0 == handle,
        !m.insert(id, (handle, now)).remove(id).contains_key(id),
{
}

/// Cleanup expires a request exactly when it has waited longer than the
/// timeout (`now` past its registration by more than `timeout` ms); every
/// other request stays pending with its handle and registration time.
pub proof fn law_cleanup_expires_only_timed_out<T>(m: Map<u32, (T, u64)>, now: u64, timeout: u64)
    ensures
        forall|id: u32| #[trigger] spec_expired_ids(m, now, timeout).contains(id)
            <==> (m.contains_key(id) && now > m[id].1 && now - m[id].1 > timeout),
        forall|id: u32| m.contains_key(id) && !(now > m[id].1 && now - m[id].1 > timeout)
            ==> #[trigger] m.remove_keys(spec_expired_ids(m, now, timeout)).contains_key(id)
                && m.remove_keys(spec_expired_ids(m, now, timeout))[id] == m[id],
        forall|id: u32| #[trigger] m.remove_keys(spec_expired_ids(m, now, timeout)).contains_key(id)
            ==> m.contains_key(id) && !(now > m[id].1 && now - m[id].1 > timeout),
{
}

} // verus!
