//! Reference data: instrument registration and per-instrument settlement schemes.
use vstd::prelude::*;
use vstd::string::*;
use vstd::hash_map::HashMapWithView;
use crate::instrument_id::InstrumentId;
use crate::param::Instrument;
use crate::text::{decimal, decimal_text, push_decimal};

verus! {

broadcast use vstd::std_specs::hash::group_hash_axioms;

/// Unit in which a settlement delay is measured.
#[derive(Clone, Copy, Debug, PartialEq, Eq, Hash, Structural)]
pub enum SettlementUnit {
    /// Business days in the caller-supplied settlement calendar.
    BusinessDays,
    /// Consecutive calendar days.
    CalendarDays,
}

impl Default for SettlementUnit {
    fn default() -> (r: SettlementUnit)
        ensures
            r == SettlementUnit::BusinessDays,
    {
        SettlementUnit::BusinessDays
    }
}

/// Settlement delay of one leg: `n` elapsed `unit`s.
#[derive(Clone, Copy, Debug, PartialEq, Eq, Hash, Structural)]
pub struct SettlementLag {
    n: u64,
    unit: SettlementUnit,
}

impl Default for SettlementLag {
    fn default() -> (r: SettlementLag)
        ensures
            r.spec_n() == 0,
            r.spec_unit() == SettlementUnit::BusinessDays,
    {
        SettlementLag { n: 0, unit: SettlementUnit::BusinessDays }
    }
}

impl SettlementLag {
    /// Number of units, for contracts.
    pub closed spec fn spec_n(self) -> u64 {
        self.n
    }

    /// Unit, for contracts.
    pub closed spec fn spec_unit(self) -> SettlementUnit {
        self.unit
    }

    /// Creates a settlement delay.
    pub fn new(n: u64, unit: SettlementUnit) -> (r: SettlementLag)
        ensures
            r.spec_n() == n,
            r.spec_unit() == unit,
    {
        SettlementLag { n, unit }
    }

    /// Number of elapsed `unit`s required for settlement.
    pub fn n(self) -> (r: u64)
        ensures
            r == self.spec_n(),
    {
        self.n
    }

    /// Unit used to measure the delay.
    pub fn unit(self) -> (r: SettlementUnit)
        ensures
            r == self.spec_unit(),
    {
        self.unit
    }

    /// Two lags are equal exactly when their counts and units are.
    pub proof fn lemma_eq(a: SettlementLag, b: SettlementLag)
        ensures
            (a == b) == (a.spec_n() == b.spec_n() && a.spec_unit() == b.spec_unit()),
    {
    }
}

/// Settlement delays of the delivery and payment legs.
#[derive(Clone, Copy, Debug, PartialEq, Eq, Hash, Structural)]
pub struct SettlementScheme {
    delivery: SettlementLag,
    payment: SettlementLag,
}

impl Default for SettlementScheme {
    fn default() -> (r: SettlementScheme)
        ensures
            r.spec_delivery().spec_n() == 0,
            r.spec_delivery().spec_unit() == SettlementUnit::BusinessDays,
            r.spec_payment() == r.spec_delivery(),
    {
        let lag = SettlementLag { n: 0, unit: SettlementUnit::BusinessDays };
        SettlementScheme { delivery: lag, payment: lag }
    }
}

impl SettlementScheme {
    /// Delivery leg, for contracts.
    pub closed spec fn spec_delivery(self) -> SettlementLag {
        self.delivery
    }

    /// Payment leg, for contracts.
    pub closed spec fn spec_payment(self) -> SettlementLag {
        self.payment
    }

    /// A scheme with independently configured legs.
    pub fn new(delivery: SettlementLag, payment: SettlementLag) -> (r: SettlementScheme)
        ensures
            r.spec_delivery() == delivery,
            r.spec_payment() == payment,
    {
        SettlementScheme { delivery, payment }
    }

    /// A scheme where both legs settle after `n` business days.
    pub fn uniform(n: u64) -> (r: SettlementScheme)
        ensures
            r.spec_delivery().spec_n() == n,
            r.spec_delivery().spec_unit() == SettlementUnit::BusinessDays,
            r.spec_payment() == r.spec_delivery(),
    {
        let lag = SettlementLag::new(n, SettlementUnit::BusinessDays);
        Self::new(lag, lag)
    }

    /// The delivery leg's delay.
    pub fn delivery(self) -> (r: SettlementLag)
        ensures
            r == self.spec_delivery(),
    {
        self.delivery
    }

    /// The payment leg's delay.
    pub fn payment(self) -> (r: SettlementLag)
        ensures
            r == self.spec_payment(),
    {
        self.payment
    }
}

/// Error returned by instrument registration; the book is left unchanged.
#[derive(Clone, Debug, PartialEq, Eq)]
pub enum ReferenceBookRegistrationError {
    /// The supplied ID already names a registered instrument.
    DuplicateId {
        /// The conflicting instrument ID.
        instrument_id: InstrumentId,
    },
    /// The supplied instrument is already registered.
    DuplicateInstrument {
        /// The conflicting instrument.
        instrument: Instrument,
    },
}

impl ReferenceBookRegistrationError {
    /// Human-readable description.
    pub fn message(&self) -> (r: String)
        ensures
            self matches ReferenceBookRegistrationError::DuplicateId { instrument_id } ==> r@ == "instrument id "@
                + decimal(instrument_id.0 as nat) + " is already registered"@,
            self matches ReferenceBookRegistrationError::DuplicateInstrument { instrument } ==> r@
                == "instrument "@ + instrument.underlying_asset@ + "/"@ + instrument.settlement_asset@
                + " is already registered"@,
    {
        match self {
            ReferenceBookRegistrationError::DuplicateId { instrument_id } => {
                let mut out = "instrument id ".to_owned();
                push_decimal(&mut out, instrument_id.0);
                out.append(" is already registered");
                out
            },
            ReferenceBookRegistrationError::DuplicateInstrument { instrument } => {
                let mut out = "instrument ".to_owned();
                out.append(instrument.underlying_asset.as_str());
                out.append("/");
                out.append(instrument.settlement_asset.as_str());
                out.append(" is already registered");
                out
            },
        }
    }
}

/// Error returned when an instrument ID is not registered.
#[derive(Clone, Copy, Debug, PartialEq, Eq, Structural)]
pub struct UnknownReferenceBookInstrumentId {
    /// The instrument ID that was not found.
    pub instrument_id: InstrumentId,
}

impl UnknownReferenceBookInstrumentId {
    /// Human-readable description.
    pub fn message(&self) -> (r: String)
        ensures
            r@ == "unknown reference-book instrument id: "@ + decimal(self.instrument_id.0 as nat),
    {
        let mut out = "unknown reference-book instrument id: ".to_owned();
        out.append(decimal_text(self.instrument_id.0).as_str());
        out
    }
}

/// `i` is an index of `instruments` registering instrument `key`.
pub open spec fn registers(instruments: Seq<(Instrument, u64)>, key: (Seq<char>, Seq<char>), i: int) -> bool {
    0 <= i < instruments.len() && instruments[i].0@ == key
}

/// Registry mapping instruments to IDs, with a settlement scheme per registered ID.
pub struct ReferenceBook {
    by_id: HashMapWithView<u64, Option<SettlementScheme>>,
    by_instrument: Vec<(Instrument, u64)>,
    next_auto_id: u64,
}

impl ReferenceBook {
    /// Registered instruments with their IDs, in registration order.
    pub closed spec fn registrations(&self) -> Seq<(Instrument, u64)> {
        self.by_instrument@
    }

    /// Settlement scheme per registered ID.
    pub closed spec fn schemes(&self) -> Map<u64, Option<SettlementScheme>> {
        self.by_id@
    }

    /// Next candidate for an automatically assigned ID.
    pub closed spec fn spec_next_auto_id(&self) -> u64 {
        self.next_auto_id
    }

    /// No instrument is registered twice, no ID is used twice, and the registered
    /// IDs are exactly the IDs with a settlement entry.
    pub closed spec fn wf(&self) -> bool {
        &&& forall|i: int, j: int|
            0 <= i < j < self.by_instrument@.len() ==> #[trigger] self.by_instrument@[i].0@
                != #[trigger] self.by_instrument@[j].0@
        &&& forall|i: int, j: int|
            0 <= i < j < self.by_instrument@.len() ==> #[trigger] self.by_instrument@[i].1
                != #[trigger] self.by_instrument@[j].1
        &&& forall|i: int|
            0 <= i < self.by_instrument@.len() ==> self.by_id@.contains_key(
                #[trigger] self.by_instrument@[i].1,
            )
        &&& forall|k: u64|
            #[trigger] self.by_id@.contains_key(k) ==> exists|i: int|
                0 <= i < self.by_instrument@.len() && #[trigger] self.by_instrument@[i].1 == k
    }

    /// The ID `instrument` is registered under, if any.
    pub open spec fn spec_resolve(&self, instrument: (Seq<char>, Seq<char>)) -> Option<u64> {
        if exists|i: int| registers(self.registrations(), instrument, i) {
            Some(self.registrations()[choose|i: int| registers(self.registrations(), instrument, i)].1)
        } else {
            None
        }
    }

    /// An empty book.
    pub fn new() -> (r: ReferenceBook)
        ensures
            r.wf(),
            r.registrations().len() == 0,
            r.schemes() == Map::<u64, Option<SettlementScheme>>::empty(),
            r.spec_next_auto_id() == 0,
    {
        ReferenceBook { by_id: HashMapWithView::new(), by_instrument: Vec::new(), next_auto_id: 0 }
    }

    fn position_of(&self, instrument: &Instrument) -> (r: Option<usize>)
        requires
            self.wf(),
        ensures
            r matches Some(i) ==> registers(self.registrations(), instrument@, i as int),
            r is None ==> !exists|i: int| registers(self.registrations(), instrument@, i),
    {
        let n = self.by_instrument.len();
        let mut i: usize = 0;
        while i < n
            invariant
                n == self.by_instrument@.len(),
                i <= n,
                forall|j: int| 0 <= j < i ==> self.by_instrument@[j].0@ != instrument@,
            decreases n - i,
        {
            if self.by_instrument[i].0.same_as(instrument) {
                return Some(i);
            }
            i += 1;
        }
        None
    }

    /// Resolves an instrument to its registered ID.
    pub fn resolve(&self, instrument: &Instrument) -> (r: Option<InstrumentId>)
        requires
            self.wf(),
        ensures
            r == (match self.spec_resolve(instrument@) {
                Some(id) => Some(InstrumentId(id)),
                None => None,
            }),
    {
        match self.position_of(instrument) {
            Some(i) => {
                proof {
                    let k = choose|k: int| registers(self.registrations(), instrument@, k);
                    if k != i {
                        if k < i {
                            assert(self.by_instrument@[k].0@ != self.by_instrument@[i as int].0@);
                        } else {
                            assert(self.by_instrument@[i as int].0@ != self.by_instrument@[k].0@);
                        }
                    }
                }
                Some(InstrumentId(self.by_instrument[i].1))
            },
            None => None,
        }
    }

    fn insert(&mut self, instrument: Instrument, instrument_id: u64)
        requires
            old(self).wf(),
            !exists|i: int| registers(old(self).registrations(), instrument@, i),
            !old(self).schemes().contains_key(instrument_id),
        ensures
            final(self).wf(),
            final(self).registrations() == old(self).registrations().push((instrument, instrument_id)),
            final(self).schemes() == old(self).schemes().insert(instrument_id, None),
            final(self).spec_next_auto_id() == old(self).spec_next_auto_id(),
    {
        let ghost old_entries = self.by_instrument@;
        self.by_instrument.push((instrument, instrument_id));
        self.by_id.insert(instrument_id, None);
        proof {
            let e = self.by_instrument@;
            assert forall|i: int, j: int| 0 <= i < j < e.len() implies #[trigger] e[i].0@ != #[trigger] e[j].0@ by {
                assert(e[i] == old_entries[i]);
                if j == e.len() - 1 {
                    assert(e[j].0 == instrument);
                    assert(!registers(old(self).registrations(), instrument@, i));
                } else {
                    assert(e[j] == old_entries[j]);
                    assert(old_entries[i].0@ != old_entries[j].0@);
                }
            }
            assert forall|i: int, j: int| 0 <= i < j < e.len() implies #[trigger] e[i].1 != #[trigger] e[j].1 by {
                if j == e.len() - 1 {
                    assert(old(self).schemes().contains_key(old_entries[i].1));
                }
            }
            assert forall|k: u64| #[trigger] self.by_id@.contains_key(k) implies exists|i: int|
                0 <= i < e.len() && #[trigger] e[i].1 == k by {
                if k == instrument_id {
                    assert(e[e.len() - 1].1 == k);
                } else {
                    let i = choose|i: int| 0 <= i < old_entries.len() && #[trigger] old_entries[i].1 == k;
                    assert(e[i].1 == k);
                }
            }
        }
    }

    /// Well-formedness reads only the registrations and the schemes.
    proof fn lemma_wf_depends_on_contents(a: ReferenceBook, b: ReferenceBook)
        requires
            a.wf(),
            a.by_instrument@ == b.by_instrument@,
            a.by_id@ == b.by_id@,
        ensures
            b.wf(),
    {
        assert forall|k: u64| #[trigger] b.by_id@.contains_key(k) implies exists|i: int|
            0 <= i < b.by_instrument@.len() && #[trigger] b.by_instrument@[i].1 == k by {
            assert(a.by_id@.contains_key(k));
            let i = choose|i: int| 0 <= i < a.by_instrument@.len() && #[trigger] a.by_instrument@[i].1 == k;
            assert(b.by_instrument@[i].1 == k);
        }
    }

    fn next_auto_id(&mut self) -> (r: u64)
        requires
            old(self).wf(),
            exists|k: u64| old(self).spec_next_auto_id() <= k < u64::MAX && !old(self).schemes().contains_key(k),
        ensures
            final(self).wf(),
            final(self).registrations() == old(self).registrations(),
            final(self).schemes() == old(self).schemes(),
            !old(self).schemes().contains_key(r),
            old(self).spec_next_auto_id() <= r,
            forall|k: u64| old(self).spec_next_auto_id() <= k < r ==> old(self).schemes().contains_key(k),
            final(self).spec_next_auto_id() == r + 1,
    {
        let start = self.next_auto_id;
        let ghost free = choose|k: u64| start <= k < u64::MAX && !self.by_id@.contains_key(k);
        loop
            invariant
                old(self).wf(),
                self.wf(),
                self.by_instrument@ == old(self).registrations(),
                self.by_id@ == old(self).schemes(),
                start == old(self).spec_next_auto_id(),
                start <= self.next_auto_id <= free < u64::MAX,
                !self.by_id@.contains_key(free),
                forall|k: u64| start <= k < self.next_auto_id ==> self.by_id@.contains_key(k),
            decreases free - self.next_auto_id,
        {
            let candidate = self.next_auto_id;
            let ghost before = *self;
            self.next_auto_id = self.next_auto_id + 1;
            proof {
                Self::lemma_wf_depends_on_contents(before, *self);
            }
            if !self.by_id.contains_key(&candidate) {
                return candidate;
            }
        }
    }

    /// Registers `instrument` under the next free automatically assigned ID.
    ///
    /// Fails with `DuplicateInstrument` when the instrument is already registered.
    pub fn register(&mut self, instrument: Instrument) -> (r: Result<InstrumentId, ReferenceBookRegistrationError>)
        requires
            old(self).wf(),
            (exists|i: int| registers(old(self).registrations(), instrument@, i)) || exists|k: u64|
                old(self).spec_next_auto_id() <= k < u64::MAX && !old(self).schemes().contains_key(k),
        ensures
            final(self).wf(),
            (exists|i: int| registers(old(self).registrations(), instrument@, i)) <==> r is Err,
            r is Err ==> r == Err::<InstrumentId, ReferenceBookRegistrationError>(
                ReferenceBookRegistrationError::DuplicateInstrument { instrument },
            ) && final(self).registrations() == old(self).registrations() && final(self).schemes()
                == old(self).schemes() && final(self).spec_next_auto_id() == old(self).spec_next_auto_id(),
            r matches Ok(id) ==> {
                &&& !old(self).schemes().contains_key(id.0)
                &&& old(self).spec_next_auto_id() <= id.0
                &&& forall|k: u64| old(self).spec_next_auto_id() <= k < id.0 ==> old(self).schemes().contains_key(k)
                &&& final(self).registrations() == old(self).registrations().push((instrument, id.0))
                &&& final(self).schemes() == old(self).schemes().insert(id.0, None)
                &&& final(self).spec_next_auto_id() == id.0 + 1
            },
    {
        match self.position_of(&instrument) {
            Some(_) => {
                return Err(ReferenceBookRegistrationError::DuplicateInstrument { instrument });
            },
            None => {},
        }
        let instrument_id = self.next_auto_id();
        self.insert(instrument, instrument_id);
        Ok(InstrumentId(instrument_id))
    }

    /// Registers `instrument` under the caller-assigned `instrument_id`.
    ///
    /// Fails with `DuplicateInstrument` when the instrument is already registered,
    /// otherwise with `DuplicateId` when the ID is taken.
    pub fn register_with_id(&mut self, instrument: Instrument, instrument_id: InstrumentId) -> (r: Result<
        InstrumentId,
        ReferenceBookRegistrationError,
    >)
        requires
            old(self).wf(),
        ensures
            final(self).wf(),
            (exists|i: int| registers(old(self).registrations(), instrument@, i)) ==> r
                == Err::<InstrumentId, ReferenceBookRegistrationError>(
                ReferenceBookRegistrationError::DuplicateInstrument { instrument },
            ),
            (!exists|i: int| registers(old(self).registrations(), instrument@, i)) && old(
                self,
            ).schemes().contains_key(instrument_id.0) ==> r == Err::<
                InstrumentId,
                ReferenceBookRegistrationError,
            >(ReferenceBookRegistrationError::DuplicateId { instrument_id }),
            r is Ok <==> (!exists|i: int| registers(old(self).registrations(), instrument@, i)) && !old(
                self,
            ).schemes().contains_key(instrument_id.0),
            r is Err ==> final(self).registrations() == old(self).registrations() && final(self).schemes()
                == old(self).schemes() && final(self).spec_next_auto_id() == old(self).spec_next_auto_id(),
            r is Ok ==> {
                &&& r == Ok::<InstrumentId, ReferenceBookRegistrationError>(instrument_id)
                &&& final(self).registrations() == old(self).registrations().push((instrument, instrument_id.0))
                &&& final(self).schemes() == old(self).schemes().insert(instrument_id.0, None)
                &&& final(self).spec_next_auto_id() == old(self).spec_next_auto_id()
            },
    {
        match self.position_of(&instrument) {
            Some(_) => {
                return Err(ReferenceBookRegistrationError::DuplicateInstrument { instrument });
            },
            None => {},
        }
        if self.by_id.contains_key(&instrument_id.0) {
            return Err(ReferenceBookRegistrationError::DuplicateId { instrument_id });
        }
        self.insert(instrument, instrument_id.0);
        Ok(instrument_id)
    }

    /// Sets the settlement scheme of a registered instrument.
    pub fn set_settlement_scheme(&mut self, instrument_id: InstrumentId, settlement_scheme: SettlementScheme) -> (r:
        Result<(), UnknownReferenceBookInstrumentId>)
        requires
            old(self).wf(),
        ensures
            final(self).wf(),
            final(self).registrations() == old(self).registrations(),
            final(self).spec_next_auto_id() == old(self).spec_next_auto_id(),
            r is Ok <==> old(self).schemes().contains_key(instrument_id.0),
            r is Ok ==> final(self).schemes() == old(self).schemes().insert(instrument_id.0, Some(settlement_scheme)),
            r is Err ==> r == Err::<(), UnknownReferenceBookInstrumentId>(
                UnknownReferenceBookInstrumentId { instrument_id },
            ) && final(self).schemes() == old(self).schemes(),
    {
        if !self.by_id.contains_key(&instrument_id.0) {
            return Err(UnknownReferenceBookInstrumentId { instrument_id });
        }
        self.by_id.insert(instrument_id.0, Some(settlement_scheme));
        proof {
            assert(self.by_id@.dom() =~= old(self).schemes().dom());
            assert forall|k: u64| #[trigger] self.by_id@.contains_key(k) implies exists|i: int|
                0 <= i < self.by_instrument@.len() && #[trigger] self.by_instrument@[i].1 == k by {
                assert(old(self).by_id@.dom().contains(k));
                assert(old(self).by_id@.contains_key(k));
                let i = choose|i: int|
                    0 <= i < old(self).by_instrument@.len() && #[trigger] old(self).by_instrument@[i].1 == k;
                assert(self.by_instrument@[i].1 == k);
            }
            assert forall|i: int| 0 <= i < self.by_instrument@.len() implies self.by_id@.contains_key(
                #[trigger] self.by_instrument@[i].1,
            ) by {
                assert(old(self).schemes().contains_key(self.by_instrument@[i].1));
                assert(self.by_id@.dom().contains(self.by_instrument@[i].1));
            }
        }
        Ok(())
    }

    /// Clears the settlement scheme of a registered instrument.
    pub fn clear_settlement_scheme(&mut self, instrument_id: InstrumentId) -> (r: Result<(), UnknownReferenceBookInstrumentId>)
        requires
            old(self).wf(),
        ensures
            final(self).wf(),
            final(self).registrations() == old(self).registrations(),
            final(self).spec_next_auto_id() == old(self).spec_next_auto_id(),
            r is Ok <==> old(self).schemes().contains_key(instrument_id.0),
            r is Ok ==> final(self).schemes() == old(self).schemes().insert(instrument_id.0, None),
            r is Err ==> r == Err::<(), UnknownReferenceBookInstrumentId>(
                UnknownReferenceBookInstrumentId { instrument_id },
            ) && final(self).schemes() == old(self).schemes(),
    {
        if !self.by_id.contains_key(&instrument_id.0) {
            return Err(UnknownReferenceBookInstrumentId { instrument_id });
        }
        self.by_id.insert(instrument_id.0, None);
        proof {
            assert(self.by_id@.dom() =~= old(self).schemes().dom());
            assert forall|k: u64| #[trigger] self.by_id@.contains_key(k) implies exists|i: int|
                0 <= i < self.by_instrument@.len() && #[trigger] self.by_instrument@[i].1 == k by {
                assert(old(self).by_id@.dom().contains(k));
                assert(old(self).by_id@.contains_key(k));
                let i = choose|i: int|
                    0 <= i < old(self).by_instrument@.len() && #[trigger] old(self).by_instrument@[i].1 == k;
                assert(self.by_instrument@[i].1 == k);
            }
            assert forall|i: int| 0 <= i < self.by_instrument@.len() implies self.by_id@.contains_key(
                #[trigger] self.by_instrument@[i].1,
            ) by {
                assert(old(self).schemes().contains_key(self.by_instrument@[i].1));
                assert(self.by_id@.dom().contains(self.by_instrument@[i].1));
            }
        }
        Ok(())
    }

    /// The settlement scheme of a registered instrument; `Ok(None)` means none is
    /// configured yet.
    pub fn settlement_scheme(&self, instrument_id: InstrumentId) -> (r: Result<
        Option<SettlementScheme>,
        UnknownReferenceBookInstrumentId,
    >)
        ensures
            r == (if self.schemes().contains_key(instrument_id.0) {
                Ok::<Option<SettlementScheme>, UnknownReferenceBookInstrumentId>(self.schemes()[instrument_id.0])
            } else {
                Err(UnknownReferenceBookInstrumentId { instrument_id })
            }),
    {
        match self.by_id.get(&instrument_id.0) {
            Some(scheme) => Ok(*scheme),
            None => Err(UnknownReferenceBookInstrumentId { instrument_id }),
        }
    }
}

/// A successful registration makes the instrument resolve to the ID it was
/// registered under, with no settlement scheme set yet, and leaves the resolution
/// of every other instrument as it was.
pub proof fn law_registration_resolves(
    before: ReferenceBook,
    after: ReferenceBook,
    instrument: Instrument,
    id: u64,
    other: (Seq<char>, Seq<char>),
)
    requires
        before.wf(),
        after.wf(),
        after.registrations() == before.registrations().push((instrument, id)),
        after.schemes() == before.schemes().insert(id, None),
    ensures
        after.spec_resolve(instrument@) == Some(id),
        after.schemes()[id] is None,
        other != instrument@ ==> after.spec_resolve(other) == before.spec_resolve(other),
{
    let old_regs = before.registrations();
    let regs = after.registrations();
    let n = old_regs.len() as int;
    assert(registers(regs, instrument@, n));
    let k = choose|k: int| registers(regs, instrument@, k);
    if k != n {
        assert(regs[k].0@ == regs[n].0@);
        assert(after.by_instrument@[k].0@ != after.by_instrument@[n].0@);
    }
    if other != instrument@ {
        assert forall|i: int| registers(regs, other, i) <==> registers(old_regs, other, i) by {
            if 0 <= i < n {
                assert(regs[i] == old_regs[i]);
            }
        }
        if exists|i: int| registers(old_regs, other, i) {
            let a = choose|i: int| registers(regs, other, i);
            let b = choose|i: int| registers(old_regs, other, i);
            assert(registers(old_regs, other, a));
            if a != b {
                if a < b {
                    assert(before.by_instrument@[a].0@ != before.by_instrument@[b].0@);
                } else {
                    assert(before.by_instrument@[b].0@ != before.by_instrument@[a].0@);
                }
            }
            assert(regs[a] == old_regs[a]);
        }
    }
}

} // verus!
