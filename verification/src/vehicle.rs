use vstd::prelude::*;

verus! {

/// The kinds of vehicle.
#[derive(Clone, Copy, Debug, PartialEq, Eq, Structural)]
pub enum VehicleType {
    Car,
    Bike,
    Truck,
    Helicopter,
    Boat,
}

/// The identities of those sitting in a vehicle, in the order they got in.
pub struct VehicleOccupants {
    ids: Vec<u128>,
}

/// No identity appears twice.
pub open spec fn distinct_ids(s: Seq<u128>) -> bool {
    forall|i: int, j: int| 0 <= i < j < s.len() ==> s[i] != s[j]
}

/// The occupants after `id` gets in: unchanged if already inside, else `id` appended.
pub open spec fn boarded(s: Seq<u128>, id: u128) -> Seq<u128> {
    if s.contains(id) {
        s
    } else {
        s.push(id)
    }
}

/// The occupants after `id` gets out: every other occupant, in the same order.
pub open spec fn alighted(s: Seq<u128>, id: u128) -> Seq<u128> {
    s.filter(|x: u128| x != id)
}

impl View for VehicleOccupants {
    type V = Seq<u128>;

    closed spec fn view(&self) -> Seq<u128> {
        self.ids@
    }
}

impl VehicleOccupants {
    /// An empty vehicle.
    pub fn new() -> (o: Self)
        ensures
            o@ == Seq::<u128>::empty(),
    {
        Self { ids: Vec::new() }
    }

    /// Whether `id` is inside.
    pub fn contains(&self, id: u128) -> (b: bool)
        ensures
            b == self@.contains(id),
    {
        let mut i: usize = 0;
        while i < self.ids.len()
            invariant
                i <= self.ids@.len(),
                forall|k: int| 0 <= k < i ==> self.ids@[k] != id,
            decreases self.ids@.len() - i,
        {
            if self.ids[i] == id {
                assert(self.ids@[i as int] == id);
                return true;
            }
            i = i + 1;
        }
        false
    }

    /// The occupants in the order they got in.
    pub fn as_slice(&self) -> (s: &[u128])
        ensures
            s@ == self@,
    {
        self.ids.as_slice()
    }

    /// Lets `id` in, unless already inside.
    pub fn add_occupant(&mut self, player_id: u128)
        ensures
            final(self)@ == boarded(old(self)@, player_id),
    {
        if !self.contains(player_id) {
            self.ids.push(player_id);
        }
    }

    /// Lets `id` out; every other occupant stays, in the same order.
    pub fn remove_occupant(&mut self, player_id: u128)
        ensures
            final(self)@ == alighted(old(self)@, player_id),
    {
        let mut kept: Vec<u128> = Vec::new();
        let mut i: usize = 0;
        while i < self.ids.len()
            invariant
                i <= self.ids@.len(),
                kept@ == alighted(self.ids@.take(i as int), player_id),
            decreases self.ids@.len() - i,
        {
            let x = self.ids[i];
            proof {
                reveal_with_fuel(Seq::filter, 1);
                assert(self.ids@.take(i + 1).drop_last() =~= self.ids@.take(i as int));
            }
            if x != player_id {
                kept.push(x);
            }
            i = i + 1;
        }
        proof {
            assert(self.ids@.take(self.ids@.len() as int) =~= self.ids@);
        }
        self.ids = kept;
    }
}

/// Getting in keeps the occupants distinct, and so does getting out.
pub proof fn lemma_occupants_stay_distinct(s: Seq<u128>, id: u128)
    requires
        distinct_ids(s),
    ensures
        distinct_ids(boarded(s, id)),
        distinct_ids(alighted(s, id)),
{
    if !s.contains(id) {
        let t = s.push(id);
        assert forall|i: int, j: int| 0 <= i < j < t.len() implies t[i] != t[j] by {
            if j == s.len() {
                assert(t[i] == s[i]);
            }
        }
    }
    lemma_filter_keeps_distinct(s, id);
}

proof fn lemma_filter_keeps_distinct(s: Seq<u128>, id: u128)
    requires
        distinct_ids(s),
    ensures
        distinct_ids(alighted(s, id)),
        forall|x: u128| alighted(s, id).contains(x) <==> (s.contains(x) && x != id),
    decreases s.len(),
{
    reveal_with_fuel(Seq::filter, 1);
    if s.len() > 0 {
        let init = s.drop_last();
        assert(distinct_ids(init));
        lemma_filter_keeps_distinct(init, id);
        assert(alighted(s, id) == (if s.last() != id { alighted(init, id).push(s.last()) } else { alighted(init, id) }));
        assert forall|x: u128| s.contains(x) <==> (init.contains(x) || x == s.last()) by {
            if s.contains(x) && x != s.last() {
                let k = choose|k: int| 0 <= k < s.len() && s[k] == x;
                assert(init[k] == x);
            }
            if init.contains(x) {
                let k = choose|k: int| 0 <= k < init.len() && init[k] == x;
                assert(s[k] == x);
            }
            if x == s.last() {
                assert(s[s.len() - 1] == x);
            }
        }
        if s.last() != id {
            let f = alighted(init, id);
            let t = f.push(s.last());
            assert(!init.contains(s.last())) by {
                if init.contains(s.last()) {
                    let k = choose|k: int| 0 <= k < init.len() && init[k] == s.last();
                    assert(s[k] == s[s.len() - 1]);
                }
            }
            assert forall|i: int, j: int| 0 <= i < j < t.len() implies t[i] != t[j] by {
                if j == f.len() {
                    assert(f.contains(t[i]));
                }
            }
            assert forall|x: u128| t.contains(x) <==> (s.contains(x) && x != id) by {
                if t.contains(x) && x != s.last() {
                    let k = choose|k: int| 0 <= k < t.len() && t[k] == x;
                    assert(f[k] == x);
                }
                if f.contains(x) {
                    let k = choose|k: int| 0 <= k < f.len() && f[k] == x;
                    assert(t[k] == x);
                }
                if x == s.last() {
                    assert(t[t.len() - 1] == x);
                }
            }
        }
    } else {
        assert(alighted(s, id) =~= s);
    }
}

/// After someone gets out they are no longer inside, everyone else who was
/// inside still is, and getting in and out again leaves a vehicle that did not
/// hold them as it was.
pub proof fn lemma_board_then_alight(s: Seq<u128>, id: u128)
    requires
        distinct_ids(s),
    ensures
        !alighted(s, id).contains(id),
        forall|x: u128| x != id ==> (alighted(s, id).contains(x) <==> s.contains(x)),
        !s.contains(id) ==> alighted(boarded(s, id), id) == s,
{
    lemma_filter_keeps_distinct(s, id);
    if !s.contains(id) {
        reveal_with_fuel(Seq::filter, 1);
        let t = s.push(id);
        assert(t.drop_last() =~= s);
        lemma_filter_absent(s, id);
    }
}

proof fn lemma_filter_absent(s: Seq<u128>, id: u128)
    requires
        !s.contains(id),
    ensures
        alighted(s, id) == s,
    decreases s.len(),
{
    reveal_with_fuel(Seq::filter, 1);
    if s.len() > 0 {
        let init = s.drop_last();
        assert(!init.contains(id)) by {
            if init.contains(id) {
                let k = choose|k: int| 0 <= k < init.len() && init[k] == id;
                assert(s[k] == id);
            }
        }
        lemma_filter_absent(init, id);
        assert(s.last() != id) by {
            if s.last() == id {
                assert(s[s.len() - 1] == id);
            }
        }
        assert(init.push(s.last()) =~= s);
    } else {
        assert(alighted(s, id) =~= s);
    }
}

} // verus!
