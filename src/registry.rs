use vstd::prelude::*;
use vstd::hash_map::HashMapWithView;
use crate::dna::{
    Kitty, gender_of, combined, combine, random_value, blake2_128_of, random_payload, push_le_bytes,
    le_bytes, complement, complemented,
};
use crate::randomness::Randomness;

verus! {

broadcast use vstd::std_specs::hash::group_hash_axioms;

/// The owner of a kitty and its genetic code.
#[derive(Clone, Copy, Debug, PartialEq, Eq)]
pub struct TokenInfo {
    pub owner: u64,
    pub data: Kitty,
}

/// What the registry reports after each successful state change.
#[derive(Clone, Copy, Debug, PartialEq, Eq)]
pub enum Event {
    /// owner, new id, genetic code
    KittyCreated(u64, u32, Kitty),
    /// owner, new id, genetic code
    KittyBred(u64, u32, Kitty),
    /// from, to, id
    KittyTransferred(u64, u64, u32),
    /// owner, id, new price
    KittyPriceUpdated(u64, u32, Option<u64>),
    /// seller, buyer, id, price paid
    KittySold(u64, u64, u32, u64),
}

/// Why an operation was refused. A refused operation changes nothing.
#[derive(Clone, Copy, Debug, PartialEq, Eq, Structural)]
pub enum Error {
    /// The id does not exist, or is not owned by the caller.
    InvalidKittyId,
    /// Both parents have the same gender.
    SameGender,
    /// Only the owner may set a price.
    NotOwner,
    /// The sender of a transfer does not own the kitty.
    NoPermission,
    /// A buyer cannot buy from themselves.
    BuyFromSelf,
    /// The kitty has no price entry.
    NotForSale,
    /// The price asked is above the buyer's maximum.
    PriceTooLow,
    /// The buyer cannot pay the price.
    InsufficientBalance,
    /// The seller's balance would exceed the largest amount.
    BalanceOverflow,
}

/// The abstract state: kitties by id, price entries by id, balances by
/// account, the events reported so far, and the position of the current
/// operation within its block, which is mixed into every derived code.
pub ghost struct RegistryState {
    pub tokens: Seq<TokenInfo>,
    pub prices: Seq<Option<u64>>,
    pub balances: Map<u64, u64>,
    pub events: Seq<Event>,
    pub extrinsic_index: Option<u32>,
}

/// Kitties, their owners and prices, and the accounts' balances.
///
/// A kitty's id is its place in `tokens`; ids are handed out in order and
/// never reused. `prices` has one entry per kitty: `None` is "not for sale".
pub struct KittiesModule {
    tokens: Vec<TokenInfo>,
    prices: Vec<Option<u64>>,
    balances: HashMapWithView<u64, u64>,
    events: Vec<Event>,
    extrinsic_index: Option<u32>,
}

/// The balance of `who`; an account never credited holds nothing.
pub open spec fn balance_of(balances: Map<u64, u64>, who: u64) -> nat {
    if balances.contains_key(who) {
        balances[who] as nat
    } else {
        0
    }
}

/// The number of kitties in `tokens` that `who` owns.
pub open spec fn owned_count(tokens: Seq<TokenInfo>, who: u64) -> nat
    decreases tokens.len(),
{
    if tokens.len() == 0 {
        0
    } else {
        owned_count(tokens.drop_last(), who) + if tokens.last().owner == who {
            1nat
        } else {
            0nat
        }
    }
}

/// `who` owns the kitty with this id (which then exists).
pub open spec fn owns(s: RegistryState, who: u64, id: u32) -> bool {
    (id as int) < s.tokens.len() && s.tokens[id as int].owner == who
}

/// The price entry of an id; no entry for an id that does not exist.
pub open spec fn price_of(s: RegistryState, id: u32) -> Option<u64> {
    if (id as int) < s.prices.len() {
        s.prices[id as int]
    } else {
        None
    }
}

/// The first check of `breed` that fails, if any.
pub open spec fn breed_error(s: RegistryState, who: u64, a: u32, b: u32) -> Option<Error> {
    if !owns(s, who, a) || !owns(s, who, b) {
        Some(Error::InvalidKittyId)
    } else if gender_of(s.tokens[a as int].data.code()) == gender_of(
        s.tokens[b as int].data.code(),
    ) {
        Some(Error::SameGender)
    } else {
        None
    }
}

/// Breeding fails with `InvalidKittyId` exactly when the caller does not own
/// both parents (an id owned by another account counts as no kitty at all,
/// never as a permission error), and with `SameGender` exactly when the
/// caller owns both and their genders agree, which includes a kitty bred
/// with itself.
pub proof fn lemma_breed_rejections(s: RegistryState, who: u64, a: u32, b: u32)
    ensures
        breed_error(s, who, a, b) == Some(Error::InvalidKittyId) <==> !(owns(s, who, a)
            && owns(s, who, b)),
        breed_error(s, who, a, b) == Some(Error::SameGender) <==> owns(s, who, a) && owns(
            s,
            who,
            b,
        ) && gender_of(s.tokens[a as int].data.code()) == gender_of(
            s.tokens[b as int].data.code(),
        ),
        owns(s, who, a) ==> breed_error(s, who, a, a) == Some(Error::SameGender),
        breed_error(s, who, a, b) != Some(Error::NoPermission),
{
}

/// The first check of `buy` that fails, if any.
pub open spec fn buy_error(
    s: RegistryState,
    buyer: u64,
    owner: u64,
    id: u32,
    max_price: u64,
) -> Option<Error> {
    if buyer == owner {
        Some(Error::BuyFromSelf)
    } else if price_of(s, id).is_none() {
        Some(Error::NotForSale)
    } else if price_of(s, id).unwrap() > max_price {
        Some(Error::PriceTooLow)
    } else if balance_of(s.balances, buyer) < price_of(s, id).unwrap() {
        Some(Error::InsufficientBalance)
    } else if balance_of(s.balances, owner) + price_of(s, id).unwrap() > u64::MAX {
        Some(Error::BalanceOverflow)
    } else if !owns(s, owner, id) {
        Some(Error::NoPermission)
    } else {
        None
    }
}

/// The state after kitty `id` passes to `to`: its price entry is removed.
pub open spec fn moved(s: RegistryState, to: u64, id: u32) -> RegistryState {
    RegistryState {
        tokens: s.tokens.update(id as int, TokenInfo { owner: to, data: s.tokens[id as int].data }),
        prices: s.prices.update(id as int, None),
        ..s
    }
}

/// The state after `buyer` buys kitty `id` from `owner` at its listed price.
pub open spec fn sold(s: RegistryState, buyer: u64, owner: u64, id: u32) -> RegistryState {
    let price = price_of(s, id).unwrap();
    let t = moved(s, buyer, id);
    RegistryState {
        balances: t.balances.insert(buyer, (balance_of(t.balances, buyer) - price) as u64).insert(
            owner,
            (balance_of(t.balances, owner) + price) as u64,
        ),
        events: t.events.push(Event::KittySold(owner, buyer, id, price)),
        ..t
    }
}

/// A sale loses and makes no money: the buyer pays exactly what the owner
/// receives, every other balance stays, the kitty is the buyer's, and it is
/// no longer for sale.
pub proof fn lemma_sale_conserves_value(
    s: RegistryState,
    buyer: u64,
    owner: u64,
    id: u32,
    max_price: u64,
)
    requires
        s.tokens.len() == s.prices.len(),
        buy_error(s, buyer, owner, id, max_price).is_none(),
    ensures
        ({
            let t = sold(s, buyer, owner, id);
            let price = price_of(s, id).unwrap();
            &&& balance_of(t.balances, buyer) + price == balance_of(s.balances, buyer)
            &&& balance_of(t.balances, owner) == balance_of(s.balances, owner) + price
            &&& forall|w: u64|
                w != buyer && w != owner ==> #[trigger] balance_of(t.balances, w) == balance_of(
                    s.balances,
                    w,
                )
            &&& owns(t, buyer, id)
            &&& price_of(t, id).is_none()
            &&& t.tokens.len() == s.tokens.len()
        }),
{
}

/// The state after a new kitty with `code` is minted for `owner`.
pub open spec fn minted(s: RegistryState, owner: u64, code: Kitty, ev: Event) -> RegistryState {
    RegistryState {
        tokens: s.tokens.push(TokenInfo { owner, data: code }),
        prices: s.prices.push(None),
        events: s.events.push(ev),
        ..s
    }
}

impl View for KittiesModule {
    type V = RegistryState;

    closed spec fn view(&self) -> RegistryState {
        RegistryState {
            tokens: self.tokens@,
            prices: self.prices@,
            balances: self.balances@,
            events: self.events@,
            extrinsic_index: self.extrinsic_index,
        }
    }
}

/// The event that was reported last.
pub fn last_event(module: &KittiesModule) -> (r: Event)
    requires
        module@.events.len() > 0,
    ensures
        r == module@.events.last(),
{
    module.events[module.events.len() - 1]
}

/// What `create` draws randomness for: the account's eight bytes, then the
/// nonce's four, least significant first.
pub open spec fn create_subject(who: u64, nonce: u32) -> Seq<u8> {
    le_bytes(who, 8) + le_bytes(nonce as u64, 4)
}

impl KittiesModule {
    /// The ids match the price entries one for one.
    pub open spec fn wf(&self) -> bool {
        self@.tokens.len() == self@.prices.len()
    }

    /// An empty registry: no kitties, no balances, no events, and the
    /// first operation of a block under way (index 0).
    pub fn new() -> (r: KittiesModule)
        ensures
            r.wf(),
            r@.tokens.len() == 0,
            r@.prices.len() == 0,
            r@.balances == Map::<u64, u64>::empty(),
            r@.events.len() == 0,
            r@.extrinsic_index == Some(0u32),
    {
        KittiesModule {
            tokens: Vec::new(),
            prices: Vec::new(),
            balances: HashMapWithView::new(),
            events: Vec::new(),
            extrinsic_index: Some(0),
        }
    }

    /// Records the position of the current operation within its block.
    pub fn set_extrinsic_index(&mut self, index: Option<u32>)
        requires
            old(self).wf(),
        ensures
            final(self).wf(),
            final(self)@ == (RegistryState { extrinsic_index: index, ..old(self)@ }),
    {
        self.extrinsic_index = index;
    }

    /// The position of the current operation within its block.
    pub fn extrinsic_index(&self) -> (r: Option<u32>)
        ensures
            r == self@.extrinsic_index,
    {
        self.extrinsic_index
    }

    /// Sets the balance of an account, as at genesis.
    pub fn set_balance(&mut self, who: u64, amount: u64)
        requires
            old(self).wf(),
        ensures
            final(self).wf(),
            final(self)@ == (RegistryState {
                balances: old(self)@.balances.insert(who, amount),
                ..old(self)@
            }),
    {
        self.balances.insert(who, amount);
    }

    /// The balance of an account.
    pub fn free_balance(&self, who: u64) -> (r: u64)
        ensures
            r as nat == balance_of(self@.balances, who),
    {
        match self.balances.get(&who) {
            Some(v) => *v,
            None => 0,
        }
    }

    /// The code of kitty `id` when `owner` owns it.
    pub fn kitties(&self, owner: u64, id: u32) -> (r: Option<Kitty>)
        ensures
            r == if owns(self@, owner, id) {
                Some(self@.tokens[id as int].data)
            } else {
                None
            },
    {
        if (id as usize) < self.tokens.len() && self.tokens[id as usize].owner == owner {
            Some(self.tokens[id as usize].data)
        } else {
            None
        }
    }

    /// The owner of kitty `id`, if it exists.
    pub fn owner_of(&self, id: u32) -> (r: Option<u64>)
        ensures
            r == if (id as int) < self@.tokens.len() {
                Some(self@.tokens[id as int].owner)
            } else {
                None
            },
    {
        if (id as usize) < self.tokens.len() {
            Some(self.tokens[id as usize].owner)
        } else {
            None
        }
    }

    /// The price entry of kitty `id`.
    pub fn kitty_prices(&self, id: u32) -> (r: Option<u64>)
        requires
            self.wf(),
        ensures
            r == price_of(self@, id),
    {
        if (id as usize) < self.prices.len() {
            self.prices[id as usize]
        } else {
            None
        }
    }

    /// The number of kitties so far, which is also the next id.
    pub fn kitties_count(&self) -> (r: usize)
        ensures
            r == self@.tokens.len(),
    {
        self.tokens.len()
    }

    /// The events reported so far, oldest first.
    pub fn events(&self) -> (r: &Vec<Event>)
        ensures
            r@ == self@.events,
    {
        &self.events
    }

    /// Forgets the events reported so far.
    pub fn reset_events(&mut self)
        requires
            old(self).wf(),
        ensures
            final(self).wf(),
            final(self)@ == (RegistryState { events: Seq::empty(), ..old(self)@ }),
    {
        self.events = Vec::new();
    }

    /// The number of kitties that `who` owns.
    pub fn owned_count(&self, who: u64) -> (r: u64)
        requires
            self@.tokens.len() <= u32::MAX,
        ensures
            r as nat == owned_count(self@.tokens, who),
            r <= self@.tokens.len(),
    {
        let mut cnt: u64 = 0;
        let mut i: usize = 0;
        while i < self.tokens.len()
            invariant
                i <= self.tokens@.len() <= u32::MAX,
                cnt <= i,
                cnt as nat == owned_count(self.tokens@.take(i as int), who),
            decreases self.tokens@.len() - i,
        {
            assert(self.tokens@.take(i + 1).drop_last() =~= self.tokens@.take(i as int));
            if self.tokens[i].owner == who {
                cnt += 1;
            }
            i += 1;
        }
        assert(self.tokens@.take(i as int) =~= self.tokens@);
        cnt
    }

    /// Adds a kitty with `code` for `owner` under the next id.
    fn mint(&mut self, owner: u64, code: Kitty) -> (id: u32)
        requires
            old(self).wf(),
            old(self)@.tokens.len() < u32::MAX,
        ensures
            final(self).wf(),
            id as int == old(self)@.tokens.len(),
            final(self)@ == (RegistryState {
                tokens: old(self)@.tokens.push(TokenInfo { owner, data: code }),
                prices: old(self)@.prices.push(None),
                ..old(self)@
            }),
    {
        let id = self.tokens.len() as u32;
        self.tokens.push(TokenInfo { owner, data: code });
        self.prices.push(None);
        id
    }

    /// Creates a kitty for `caller` with genetic code `dna`.
    pub fn create_with_dna(&mut self, caller: u64, dna: [u8; 16]) -> (id: u32)
        requires
            old(self).wf(),
            old(self)@.tokens.len() < u32::MAX,
        ensures
            final(self).wf(),
            id as int == old(self)@.tokens.len(),
            final(self)@ == minted(
                old(self)@,
                caller,
                Kitty(dna),
                Event::KittyCreated(caller, id, Kitty(dna)),
            ),
    {
        let code = Kitty(dna);
        let id = self.mint(caller, code);
        self.events.push(Event::KittyCreated(caller, id, code));
        id
    }

    /// Creates a kitty for `caller`. Its code is derived by `random_value`
    /// from the value that `rng` draws for `create_subject(caller, nonce)`,
    /// where the nonce is the number of kitties the caller owns.
    pub fn create<R: Randomness>(&mut self, caller: u64, rng: &R) -> (id: u32)
        requires
            old(self).wf(),
            old(self)@.tokens.len() < u32::MAX,
        ensures
            final(self).wf(),
            id as int == old(self)@.tokens.len(),
            final(self)@.tokens[id as int].data.code() == blake2_128_of(
                random_payload(
                    rng.drawn(
                        create_subject(caller, owned_count(old(self)@.tokens, caller) as u32),
                    ),
                    caller,
                    old(self)@.extrinsic_index,
                ),
            ),
            final(self)@ == minted(
                old(self)@,
                caller,
                final(self)@.tokens[id as int].data,
                Event::KittyCreated(caller, id, final(self)@.tokens[id as int].data),
            ),
    {
        let nonce = self.owned_count(caller) as u32;
        let mut subject: Vec<u8> = Vec::new();
        push_le_bytes(&mut subject, caller, 8);
        push_le_bytes(&mut subject, nonce as u64, 4);
        let draw = rng.random(subject.as_slice());
        let dna = random_value(&draw, caller, self.extrinsic_index);
        self.create_with_dna(caller, dna)
    }

    /// Breeds kitties `a` and `b` of `caller`, the child's code mixing the
    /// parents' under the selection `mask`.
    pub fn breed_with_mask(&mut self, caller: u64, a: u32, b: u32, mask: [u8; 16]) -> (r: Result<
        u32,
        Error,
    >)
        requires
            old(self).wf(),
            old(self)@.tokens.len() < u32::MAX,
        ensures
            final(self).wf(),
            match breed_error(old(self)@, caller, a, b) {
                Some(e) => r == Err::<u32, Error>(e) && final(self)@ == old(self)@,
                None => r.is_ok() && r.unwrap() as int == old(self)@.tokens.len() && {
                    let child = final(self)@.tokens[r.unwrap() as int].data;
                    &&& child.code() == combined(
                        old(self)@.tokens[a as int].data.code(),
                        old(self)@.tokens[b as int].data.code(),
                        mask@,
                    )
                    &&& final(self)@ == minted(
                        old(self)@,
                        caller,
                        child,
                        Event::KittyBred(caller, r.unwrap(), child),
                    )
                },
            },
    {
        if let Some(e) = self.check_breed(caller, a, b) {
            return Err(e);
        }
        let child = combine(&self.tokens[a as usize].data, &self.tokens[b as usize].data, &mask);
        let id = self.mint(caller, child);
        self.events.push(Event::KittyBred(caller, id, child));
        Ok(id)
    }

    /// The first check of `breed` that fails, if any.
    pub fn check_breed(&self, caller: u64, a: u32, b: u32) -> (r: Option<Error>)
        ensures
            r == breed_error(self@, caller, a, b),
    {
        let n = self.tokens.len();
        if !((a as usize) < n && self.tokens[a as usize].owner == caller) || !((b as usize) < n
            && self.tokens[b as usize].owner == caller) {
            return Some(Error::InvalidKittyId);
        }
        if self.tokens[a as usize].data.gender() == self.tokens[b as usize].data.gender() {
            return Some(Error::SameGender);
        }
        None
    }

    /// Breeds kitties `a` and `b` of `caller`: the child's code mixes the
    /// parents' bit by bit. Its mask flips every bit of what `random_value`
    /// derives from the value that `rng` draws for both parents' codes, so the
    /// child takes the bits of `b` where that digest has them set.
    pub fn breed<R: Randomness>(&mut self, caller: u64, a: u32, b: u32, rng: &R) -> (r: Result<
        u32,
        Error,
    >)
        requires
            old(self).wf(),
            old(self)@.tokens.len() < u32::MAX,
        ensures
            final(self).wf(),
            match breed_error(old(self)@, caller, a, b) {
                Some(e) => r == Err::<u32, Error>(e) && final(self)@ == old(self)@,
                None => r.is_ok() && r.unwrap() as int == old(self)@.tokens.len() && {
                    let child = final(self)@.tokens[r.unwrap() as int].data;
                    let code_a = old(self)@.tokens[a as int].data.code();
                    let code_b = old(self)@.tokens[b as int].data.code();
                    &&& child.code() == combined(
                        code_a,
                        code_b,
                        complemented(
                            blake2_128_of(
                                random_payload(
                                    rng.drawn(code_a + code_b),
                                    caller,
                                    old(self)@.extrinsic_index,
                                ),
                            ),
                        ),
                    )
                    &&& final(self)@ == minted(
                        old(self)@,
                        caller,
                        child,
                        Event::KittyBred(caller, r.unwrap(), child),
                    )
                },
            },
    {
        if let Some(e) = self.check_breed(caller, a, b) {
            return Err(e);
        }
        let mut subject: Vec<u8> = Vec::new();
        subject.extend_from_slice(&self.tokens[a as usize].data.0);
        subject.extend_from_slice(&self.tokens[b as usize].data.0);
        assert(subject@ =~= self@.tokens[a as int].data.code() + self@.tokens[b as int].data.code());
        let draw = rng.random(subject.as_slice());
        let mask = complement(&random_value(&draw, caller, self.extrinsic_index));
        self.breed_with_mask(caller, a, b, mask)
    }

    /// Sets or clears the price of kitty `id`; only its owner may.
    pub fn set_price(&mut self, caller: u64, id: u32, new_price: Option<u64>) -> (r: Result<
        (),
        Error,
    >)
        requires
            old(self).wf(),
        ensures
            final(self).wf(),
            !owns(old(self)@, caller, id) ==> r == Err::<(), Error>(Error::NotOwner)
                && final(self)@ == old(self)@,
            owns(old(self)@, caller, id) ==> r is Ok && final(self)@ == (RegistryState {
                prices: old(self)@.prices.update(id as int, new_price),
                events: old(self)@.events.push(Event::KittyPriceUpdated(caller, id, new_price)),
                ..old(self)@
            }),
            r is Ok ==> price_of(final(self)@, id) == new_price,
    {
        if !((id as usize) < self.tokens.len() && self.tokens[id as usize].owner == caller) {
            return Err(Error::NotOwner);
        }
        self.prices.set(id as usize, new_price);
        self.events.push(Event::KittyPriceUpdated(caller, id, new_price));
        Ok(())
    }

    /// Passes kitty `id` from `from` to `to`, removing its price entry.
    /// A transfer to oneself only checks ownership and changes nothing.
    pub fn transfer(&mut self, from: u64, to: u64, id: u32) -> (r: Result<(), Error>)
        requires
            old(self).wf(),
        ensures
            final(self).wf(),
            !owns(old(self)@, from, id) ==> r == Err::<(), Error>(Error::NoPermission)
                && final(self)@ == old(self)@,
            owns(old(self)@, from, id) ==> r is Ok,
            r is Ok && from == to ==> final(self)@ == old(self)@,
            r is Ok && from != to ==> final(self)@ == (RegistryState {
                events: old(self)@.events.push(Event::KittyTransferred(from, to, id)),
                ..moved(old(self)@, to, id)
            }),
            r is Ok && from != to ==> price_of(final(self)@, id).is_none(),
    {
        if !((id as usize) < self.tokens.len() && self.tokens[id as usize].owner == from) {
            return Err(Error::NoPermission);
        }
        if from == to {
            return Ok(());
        }
        self.move_token(to, id);
        self.events.push(Event::KittyTransferred(from, to, id));
        Ok(())
    }

    /// Gives kitty `id` to `to` and removes its price entry.
    fn move_token(&mut self, to: u64, id: u32)
        requires
            old(self).wf(),
            (id as int) < old(self)@.tokens.len(),
        ensures
            final(self).wf(),
            final(self)@ == moved(old(self)@, to, id),
    {
        let data = self.tokens[id as usize].data;
        self.tokens.set(id as usize, TokenInfo { owner: to, data });
        self.prices.set(id as usize, None);
    }

    /// The first check of `buy` that fails, if any.
    pub fn check_buy(&self, buyer: u64, owner: u64, id: u32, max_price: u64) -> (r: Option<Error>)
        requires
            self.wf(),
        ensures
            r == buy_error(self@, buyer, owner, id, max_price),
    {
        if buyer == owner {
            return Some(Error::BuyFromSelf);
        }
        let price = match self.kitty_prices(id) {
            None => return Some(Error::NotForSale),
            Some(p) => p,
        };
        if price > max_price {
            return Some(Error::PriceTooLow);
        }
        if self.free_balance(buyer) < price {
            return Some(Error::InsufficientBalance);
        }
        if self.free_balance(owner) > u64::MAX - price {
            return Some(Error::BalanceOverflow);
        }
        if !((id as usize) < self.tokens.len() && self.tokens[id as usize].owner == owner) {
            return Some(Error::NoPermission);
        }
        None
    }

    /// `buyer` buys kitty `id` from `owner` at its listed price, if that is
    /// at most `max_price`: the price moves from buyer to owner, the kitty
    /// from owner to buyer, and its price entry is removed. An entry of zero
    /// is not told apart here from any other price; whether it should rather
    /// mean "delisted" is an open question, and a sale at zero is not relied on.
    pub fn buy(&mut self, buyer: u64, owner: u64, id: u32, max_price: u64) -> (r: Result<(), Error>)
        requires
            old(self).wf(),
        ensures
            final(self).wf(),
            match buy_error(old(self)@, buyer, owner, id, max_price) {
                Some(e) => r == Err::<(), Error>(e) && final(self)@ == old(self)@,
                None => r is Ok && final(self)@ == sold(old(self)@, buyer, owner, id),
            },
            r is Ok ==> price_of(final(self)@, id).is_none(),
    {
        if let Some(e) = self.check_buy(buyer, owner, id, max_price) {
            return Err(e);
        }
        let price = self.prices[id as usize].unwrap();
        let paid = self.free_balance(buyer) - price;
        let received = self.free_balance(owner) + price;
        self.balances.insert(buyer, paid);
        self.balances.insert(owner, received);
        self.move_token(buyer, id);
        self.events.push(Event::KittySold(owner, buyer, id, price));
        Ok(())
    }
}

} // verus!
