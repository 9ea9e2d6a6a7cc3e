//! Catalog administration and ownership: which avatars, frames, skins,
//! characters and store items may be saved, bought and selected.
use vstd::prelude::*;
use vstd::string::*;
use crate::json::JsonValue;
use crate::names::{is_wallet_currency, spec_wallet_currency};
use crate::status::Rejection;
use crate::text::{str_eq, trim, trim_seq};

verus! {

/// The currency catalog entries are priced in unless set.
pub fn default_currency() -> (r: String)
    ensures
        r@ == "soft"@,
{
    String::from_str("soft")
}

/// A character's frontend metadata unless set: `{}`.
pub fn empty_object() -> (r: JsonValue)
    ensures
        r matches JsonValue::Object(e) && e@.len() == 0,
{
    JsonValue::Object(Vec::new())
}

/// The rarity a character gets unless set.
pub fn default_rarity() -> (r: String)
    ensures
        r@ == "common"@,
{
    String::from_str("common")
}

/// The rarities of characters.
#[derive(PartialEq, Eq, Structural, Clone, Copy, Debug)]
pub enum Rarity {
    Common,
    Uncommon,
    Rare,
    Epic,
    Legendary,
}

pub open spec fn rarity_named(s: Seq<char>) -> Option<Rarity> {
    if s == "common"@ {
        Some(Rarity::Common)
    } else if s == "uncommon"@ {
        Some(Rarity::Uncommon)
    } else if s == "rare"@ {
        Some(Rarity::Rare)
    } else if s == "epic"@ {
        Some(Rarity::Epic)
    } else if s == "legendary"@ {
        Some(Rarity::Legendary)
    } else {
        None
    }
}

pub open spec fn rarity_name(r: Rarity) -> Seq<char> {
    match r {
        Rarity::Common => "common"@,
        Rarity::Uncommon => "uncommon"@,
        Rarity::Rare => "rare"@,
        Rarity::Epic => "epic"@,
        Rarity::Legendary => "legendary"@,
    }
}

impl Rarity {
    pub fn parse(s: &str) -> (r: Option<Rarity>)
        ensures
            r == rarity_named(s@),
    {
        if str_eq(s, "common") {
            Some(Rarity::Common)
        } else if str_eq(s, "uncommon") {
            Some(Rarity::Uncommon)
        } else if str_eq(s, "rare") {
            Some(Rarity::Rare)
        } else if str_eq(s, "epic") {
            Some(Rarity::Epic)
        } else if str_eq(s, "legendary") {
            Some(Rarity::Legendary)
        } else {
            None
        }
    }

    pub fn as_str(&self) -> (r: &'static str)
        ensures
            r@ == rarity_name(*self),
    {
        match self {
            Rarity::Common => "common",
            Rarity::Uncommon => "uncommon",
            Rarity::Rare => "rare",
            Rarity::Epic => "epic",
            Rarity::Legendary => "legendary",
        }
    }
}

/// A name that is not blank.
pub open spec fn named(s: Seq<char>) -> bool {
    trim_seq(s).len() > 0
}

/// A new avatar needs a name, a price of at least 0 and a wallet currency.
pub fn check_new_avatar(name: &str, price: i64, currency: &str) -> (r: Result<(), Rejection>)
    ensures
        r is Ok <==> named(name@) && price >= 0 && spec_wallet_currency(currency@),
        r is Err ==> r == Err::<(), Rejection>(Rejection::BadRequest),
{
    if trim(name).is_empty() || price < 0 || !is_wallet_currency(currency) {
        return Err(Rejection::BadRequest);
    }
    Ok(())
}

/// An avatar or frame update may set a price of at least 0, a wallet
/// currency and a name that is not blank.
pub fn check_avatar_update(name: Option<&str>, price: Option<i64>, currency: Option<&str>) -> (r: Result<(), Rejection>)
    ensures
        r is Ok <==> (price matches Some(p) ==> p >= 0) && (currency matches Some(c) ==> spec_wallet_currency(c@))
            && (name matches Some(n) ==> named(n@)),
        r is Err ==> r == Err::<(), Rejection>(Rejection::BadRequest),
{
    if let Some(p) = price {
        if p < 0 {
            return Err(Rejection::BadRequest);
        }
    }
    if let Some(c) = currency {
        if !is_wallet_currency(c) {
            return Err(Rejection::BadRequest);
        }
    }
    if let Some(n) = name {
        if trim(n).is_empty() {
            return Err(Rejection::BadRequest);
        }
    }
    Ok(())
}

/// A new skin needs a wallet currency and a cost of at least 0.
pub fn check_new_skin(currency: &str, cost: i64) -> (r: Result<(), Rejection>)
    ensures
        r is Ok <==> spec_wallet_currency(currency@) && cost >= 0,
        r is Err ==> r == Err::<(), Rejection>(Rejection::BadRequest),
{
    if !is_wallet_currency(currency) || cost < 0 {
        return Err(Rejection::BadRequest);
    }
    Ok(())
}

/// A skin update may set a cost of at least 0 and a wallet currency.
pub fn check_skin_update(cost: Option<i64>, currency: Option<&str>) -> (r: Result<(), Rejection>)
    ensures
        r is Ok <==> (cost matches Some(c) ==> c >= 0) && (currency matches Some(c) ==> spec_wallet_currency(c@)),
        r is Err ==> r == Err::<(), Rejection>(Rejection::BadRequest),
{
    check_avatar_update(None, cost, currency)
}

/// A new character needs a name and a known rarity; gives the rarity.
pub fn check_new_character(name: &str, rarity: &str) -> (r: Result<Rarity, Rejection>)
    ensures
        r is Ok <==> named(name@) && rarity_named(rarity@) is Some,
        r matches Ok(x) ==> rarity_named(rarity@) == Some(x),
        r is Err ==> r == Err::<Rarity, Rejection>(Rejection::BadRequest),
{
    if trim(name).is_empty() {
        return Err(Rejection::BadRequest);
    }
    match Rarity::parse(rarity) {
        Some(x) => Ok(x),
        None => Err(Rejection::BadRequest),
    }
}

/// A character update may set a name that is not blank and a known rarity;
/// gives the rarity it sets, if any.
pub fn check_character_update(name: Option<&str>, rarity: Option<&str>) -> (r: Result<Option<Rarity>, Rejection>)
    ensures
        r is Ok <==> (name matches Some(n) ==> named(n@)) && (rarity matches Some(s) ==> rarity_named(s@) is Some),
        r matches Ok(x) ==> x == match rarity { Some(s) => rarity_named(s@), None => None },
        r is Err ==> r == Err::<Option<Rarity>, Rejection>(Rejection::BadRequest),
{
    if let Some(n) = name {
        if trim(n).is_empty() {
            return Err(Rejection::BadRequest);
        }
    }
    match rarity {
        Some(s) => match Rarity::parse(s) {
            Some(x) => Ok(Some(x)),
            None => Err(Rejection::BadRequest),
        },
        None => Ok(None),
    }
}

/// How a failed write is answered: the one database error code `code` that
/// the handler expects becomes `expected`; every other failure is 500.
pub fn write_failure(code: Option<&str>, expected_code: &str, expected: Rejection) -> (r: Rejection)
    ensures
        (code matches Some(c) && c@ == expected_code@) ==> r == expected,
        !(code matches Some(c) && c@ == expected_code@) ==> r == Rejection::Internal,
{
    match code {
        Some(c) => if str_eq(c, expected_code) {
            expected
        } else {
            Rejection::Internal
        },
        None => Rejection::Internal,
    }
}

/// A delete or update that touched no row answers 404.
pub fn touched(rows_affected: u64) -> (r: Result<(), Rejection>)
    ensures
        rows_affected == 0 ==> r == Err::<(), Rejection>(Rejection::NotFound),
        rows_affected > 0 ==> r is Ok,
{
    if rows_affected == 0 {
        Err(Rejection::NotFound)
    } else {
        Ok(())
    }
}

/// Currencies a store item may be sold in.
#[derive(PartialEq, Eq, Structural, Clone, Copy, Debug)]
pub enum StoreCurrency {
    High,
    Soft,
    Energy,
    Iap,
}

pub open spec fn store_currency_named(s: Seq<char>) -> Option<StoreCurrency> {
    if s == "high"@ {
        Some(StoreCurrency::High)
    } else if s == "soft"@ {
        Some(StoreCurrency::Soft)
    } else if s == "energy"@ {
        Some(StoreCurrency::Energy)
    } else if s == "iap"@ {
        Some(StoreCurrency::Iap)
    } else {
        None
    }
}

impl StoreCurrency {
    pub fn parse(s: &str) -> (r: Option<StoreCurrency>)
        ensures
            r == store_currency_named(s@),
    {
        if str_eq(s, "high") {
            Some(StoreCurrency::High)
        } else if str_eq(s, "soft") {
            Some(StoreCurrency::Soft)
        } else if str_eq(s, "energy") {
            Some(StoreCurrency::Energy)
        } else if str_eq(s, "iap") {
            Some(StoreCurrency::Iap)
        } else {
            None
        }
    }
}

/// What a store item's kind must satisfy: a known item type
/// (`item_type_known`), a known currency, a product id when sold for real
/// money, and a payload that is a valid grant list (`payload_valid`).
pub open spec fn spec_item_kind_ok(
    item_type_known: bool,
    currency: Seq<char>,
    iap_product_id: Option<Seq<char>>,
    payload_valid: bool,
) -> bool {
    &&& item_type_known
    &&& store_currency_named(currency) is Some
    &&& (store_currency_named(currency) == Some(StoreCurrency::Iap) ==> (iap_product_id matches Some(p) && p.len() > 0))
    &&& payload_valid
}

/// Checks the kind of a store item.
pub fn validate_store_payload(
    item_type_known: bool,
    currency: &str,
    iap_product_id: Option<&str>,
    payload_valid: bool,
) -> (r: Result<(), Rejection>)
    ensures
        r is Ok <==> spec_item_kind_ok(
            item_type_known,
            currency@,
            match iap_product_id { Some(p) => Some(p@), None => None },
            payload_valid,
        ),
        r is Err ==> r == Err::<(), Rejection>(Rejection::BadRequest),
{
    if !item_type_known {
        return Err(Rejection::BadRequest);
    }
    let cur = match StoreCurrency::parse(currency) {
        Some(c) => c,
        None => return Err(Rejection::BadRequest),
    };
    if cur == StoreCurrency::Iap {
        let missing = match iap_product_id {
            Some(p) => p.is_empty(),
            None => true,
        };
        if missing {
            return Err(Rejection::BadRequest);
        }
    }
    if !payload_valid {
        return Err(Rejection::BadRequest);
    }
    Ok(())
}

/// A new store item: a cost of at least 0, then `validate_store_payload`.
pub fn check_new_item(
    cost: i64,
    item_type_known: bool,
    currency: &str,
    iap_product_id: Option<&str>,
    payload_valid: bool,
) -> (r: Result<(), Rejection>)
    ensures
        r is Ok <==> cost >= 0 && spec_item_kind_ok(
            item_type_known,
            currency@,
            match iap_product_id { Some(p) => Some(p@), None => None },
            payload_valid,
        ),
        r is Err ==> r == Err::<(), Rejection>(Rejection::BadRequest),
{
    if cost < 0 {
        return Err(Rejection::BadRequest);
    }
    validate_store_payload(item_type_known, currency, iap_product_id, payload_valid)
}

/// An update that sets the type, currency, payload or product id has its
/// whole effective kind checked again.
pub fn item_update_rechecks_kind(item_type: bool, currency: bool, payload: bool, iap_product_id: bool) -> (r: bool)
    ensures
        r == (item_type || currency || payload || iap_product_id),
{
    item_type || currency || payload || iap_product_id
}

/// The kind of a store item: whether its type is a known item type, its
/// currency, its product id, and whether its payload is a valid grant list.
pub struct ItemKind {
    pub type_known: bool,
    pub currency: String,
    pub iap_product_id: Option<String>,
    pub payload_valid: bool,
}

/// The kind fields an update sets, each `None` when left as stored.
pub struct ItemKindUpdate {
    pub type_known: Option<bool>,
    pub currency: Option<String>,
    pub iap_product_id: Option<String>,
    pub payload_valid: Option<bool>,
}

pub open spec fn opt_view(o: Option<String>) -> Option<Seq<char>> {
    match o {
        Some(s) => Some(s@),
        None => None,
    }
}

/// A kind the store accepts.
pub open spec fn kind_ok(k: ItemKind) -> bool {
    spec_item_kind_ok(k.type_known, k.currency@, opt_view(k.iap_product_id), k.payload_valid)
}

/// Whether an update sets any kind field.
pub open spec fn touches_kind(u: ItemKindUpdate) -> bool {
    u.type_known is Some || u.currency is Some || u.iap_product_id is Some || u.payload_valid is Some
}

/// The kind an update leaves: each field it sets, the stored one otherwise.
pub open spec fn kind_after(u: ItemKindUpdate, k: ItemKind) -> ItemKind {
    ItemKind {
        type_known: match u.type_known {
            Some(t) => t,
            None => k.type_known,
        },
        currency: match u.currency {
            Some(c) => c,
            None => k.currency,
        },
        iap_product_id: match u.iap_product_id {
            Some(p) => Some(p),
            None => k.iap_product_id,
        },
        payload_valid: match u.payload_valid {
            Some(p) => p,
            None => k.payload_valid,
        },
    }
}

/// The answer to an update's kind check: nothing to check when it sets no
/// kind field; else the item must exist (404) and the kind it leaves must
/// pass `validate_store_payload` (400).
pub open spec fn spec_kind_update(u: ItemKindUpdate, stored: Option<ItemKind>) -> Result<(), Rejection> {
    if !touches_kind(u) {
        Ok(())
    } else {
        match stored {
            None => Err(Rejection::NotFound),
            Some(k) => if kind_ok(kind_after(u, k)) {
                Ok(())
            } else {
                Err(Rejection::BadRequest)
            },
        }
    }
}

impl ItemKindUpdate {
    /// Whether the update sets any kind field, so that the stored kind must be
    /// read and the whole kind checked again.
    pub fn touches_kind(&self) -> (r: bool)
        ensures
            r == touches_kind(*self),
    {
        item_update_rechecks_kind(
            self.type_known.is_some(),
            self.currency.is_some(),
            self.payload_valid.is_some(),
            self.iap_product_id.is_some(),
        )
    }
}

/// Checks the kind an update leaves; `stored` is the item's stored kind,
/// read only when the update sets a kind field (`None`: no such item).
pub fn check_kind_update(update: &ItemKindUpdate, stored: Option<&ItemKind>) -> (r: Result<(), Rejection>)
    ensures
        r == spec_kind_update(*update, match stored {
            Some(k) => Some(*k),
            None => None,
        }),
{
    if !update.touches_kind() {
        return Ok(());
    }
    let k = match stored {
        Some(k) => k,
        None => return Err(Rejection::NotFound),
    };
    let type_known = match update.type_known {
        Some(t) => t,
        None => k.type_known,
    };
    let currency = match &update.currency {
        Some(c) => c.as_str(),
        None => k.currency.as_str(),
    };
    let iap = match &update.iap_product_id {
        Some(p) => Some(p.as_str()),
        None => match &k.iap_product_id {
            Some(p) => Some(p.as_str()),
            None => None,
        },
    };
    let payload_valid = match update.payload_valid {
        Some(p) => p,
        None => k.payload_valid,
    };
    match validate_store_payload(type_known, currency, iap, payload_valid) {
        Ok(()) => Ok(()),
        Err(e) => Err(e),
    }
}

/// A store item's kind stays valid through every update the kind check
/// accepts: an update that sets no kind field leaves the stored kind as it
/// was, and one that sets any of them passes only when the kind it leaves is
/// valid.
pub proof fn law_item_kind_stays_valid(update: ItemKindUpdate, stored: ItemKind)
    requires
        kind_ok(stored),
        spec_kind_update(update, Some(stored)) is Ok,
    ensures
        kind_ok(kind_after(update, stored)),
{
    if !touches_kind(update) {
        assert(kind_after(update, stored) == stored);
    }
}

/// A negative cost is refused wherever it is given.
pub fn check_cost(cost: Option<i64>) -> (r: Result<(), Rejection>)
    ensures
        r is Ok <==> (cost matches Some(c) ==> c >= 0),
        r is Err ==> r == Err::<(), Rejection>(Rejection::BadRequest),
{
    match cost {
        Some(c) => if c < 0 {
            Err(Rejection::BadRequest)
        } else {
            Ok(())
        },
        None => Ok(()),
    }
}

/// A frame on sale: its price and whether it is offered.
pub struct FrameOffer {
    pub price: i64,
    pub is_active: bool,
}

/// A frame purchase needs the frame (else 404) to be offered (else 410); it
/// gives the price.
pub fn check_frame_purchase(offer: Option<&FrameOffer>) -> (r: Result<i64, Rejection>)
    ensures
        match offer {
            None => r == Err::<i64, Rejection>(Rejection::NotFound),
            Some(f) => if f.is_active {
                r == Ok::<i64, Rejection>(f.price)
            } else {
                r == Err::<i64, Rejection>(Rejection::Gone)
            },
        },
{
    match offer {
        None => Err(Rejection::NotFound),
        Some(f) => if f.is_active {
            Ok(f.price)
        } else {
            Err(Rejection::Gone)
        },
    }
}

/// An ownership row insert that touched nothing: the player owns it already.
pub fn acquired(rows_affected: u64) -> (r: Result<(), Rejection>)
    ensures
        rows_affected == 0 ==> r == Err::<(), Rejection>(Rejection::Conflict),
        rows_affected > 0 ==> r is Ok,
{
    if rows_affected == 0 {
        Err(Rejection::Conflict)
    } else {
        Ok(())
    }
}

/// The wallet change a purchase makes: minus the price when positive; a free
/// item changes nothing and the current balance is reported instead.
pub fn purchase_charge(price: i64) -> (r: Option<i64>)
    ensures
        price > 0 ==> (r matches Some(d) && d == -price),
        price <= 0 ==> r is None,
{
    if price > 0 {
        Some(-price)
    } else {
        None
    }
}

/// Only an owned avatar or frame may be selected.
pub fn check_selectable(owned: bool) -> (r: Result<(), Rejection>)
    ensures
        owned ==> r is Ok,
        !owned ==> r == Err::<(), Rejection>(Rejection::Forbidden),
{
    if owned {
        Ok(())
    } else {
        Err(Rejection::Forbidden)
    }
}

/// An owned avatar or frame, flagged when it is the one on the profile.
pub struct OwnedRow {
    pub id: u128,
    pub is_selected: bool,
}

/// The owned items, in order, each flagged when it is `selected`.
pub fn owned_rows(ids: &Vec<u128>, selected: Option<u128>) -> (r: Vec<OwnedRow>)
    ensures
        r@.len() == ids@.len(),
        forall|i: int| 0 <= i < ids@.len() ==> (#[trigger] r@[i]).id == ids@[i] && r@[i].is_selected == (selected == Some(ids@[i])),
{
    let mut out: Vec<OwnedRow> = Vec::new();
    let mut i: usize = 0;
    while i < ids.len()
        invariant
            0 <= i <= ids@.len(),
            out@.len() == i,
            forall|j: int| 0 <= j < i ==> (#[trigger] out@[j]).id == ids@[j] && out@[j].is_selected == (selected == Some(ids@[j])),
        decreases ids@.len() - i,
    {
        let id = ids[i];
        let is_selected = match selected {
            Some(s) => s == id,
            None => false,
        };
        out.push(OwnedRow { id, is_selected });
        assert(out@[i as int].id == ids@[i as int] && out@[i as int].is_selected == (selected == Some(ids@[i as int])));
        i = i + 1;
    }
    out
}

/// A character with the player's own state, as read.
pub struct CharacterState {
    pub id: u128,
    /// The player's unlock flag, when the player has a row for it.
    pub unlocked: Option<bool>,
    pub equipped_skin_id: Option<u128>,
    pub default_unlocked: bool,
}

/// An active skin and the character it is for.
pub struct SkinLink {
    pub id: u128,
    pub character_id: u128,
}

/// A character as the player sees it.
pub struct CharacterView {
    pub id: u128,
    pub unlocked: bool,
    pub equipped_skin: Option<u128>,
    pub related_skins: Vec<u128>,
}

/// The skins of character `c`, in order.
pub open spec fn skins_of(skins: Seq<SkinLink>, c: u128) -> Seq<u128>
    decreases skins.len(),
{
    if skins.len() == 0 {
        Seq::empty()
    } else {
        let rest = skins_of(skins.drop_last(), c);
        if skins.last().character_id == c {
            rest.push(skins.last().id)
        } else {
            rest
        }
    }
}

/// What the player sees of character `c`: unlocked when their own flag is
/// set or the character is unlocked by default, their equipped skin, and
/// every active skin of the character.
pub open spec fn view_matches(v: CharacterView, c: CharacterState, skins: Seq<SkinLink>) -> bool {
    &&& v.id == c.id
    &&& v.unlocked == (c.unlocked == Some(true) || c.default_unlocked)
    &&& v.equipped_skin == c.equipped_skin_id
    &&& v.related_skins@ == skins_of(skins, c.id)
}

fn skins_for(skins: &Vec<SkinLink>, c: u128) -> (r: Vec<u128>)
    ensures
        r@ == skins_of(skins@, c),
{
    let mut out: Vec<u128> = Vec::new();
    let mut i: usize = 0;
    while i < skins.len()
        invariant
            0 <= i <= skins@.len(),
            out@ == skins_of(skins@.take(i as int), c),
        decreases skins@.len() - i,
    {
        assert(skins@.take(i + 1).drop_last() == skins@.take(i as int));
        if skins[i].character_id == c {
            out.push(skins[i].id);
        }
        i = i + 1;
    }
    assert(skins@.take(skins@.len() as int) == skins@);
    out
}

/// The player's view of every character, in order.
pub fn character_views(chars: &Vec<CharacterState>, skins: &Vec<SkinLink>) -> (r: Vec<CharacterView>)
    ensures
        r@.len() == chars@.len(),
        forall|i: int| 0 <= i < chars@.len() ==> view_matches(#[trigger] r@[i], chars@[i], skins@),
{
    let mut out: Vec<CharacterView> = Vec::new();
    let mut i: usize = 0;
    while i < chars.len()
        invariant
            0 <= i <= chars@.len(),
            out@.len() == i,
            forall|k: int| 0 <= k < i ==> view_matches(#[trigger] out@[k], chars@[k], skins@),
        decreases chars@.len() - i,
    {
        let c = &chars[i];
        let related = skins_for(skins, c.id);
        let unlocked = match c.unlocked {
            Some(u) => u || c.default_unlocked,
            None => c.default_unlocked,
        };
        out.push(CharacterView { id: c.id, unlocked, equipped_skin: c.equipped_skin_id, related_skins: related });
        assert(view_matches(out@[i as int], chars@[i as int], skins@));
        i = i + 1;
    }
    out
}

pub struct CreateAvatarRequest {
    pub name: String,
    pub price: i64,
    pub currency: String,
}

impl CreateAvatarRequest {
    pub fn check(&self) -> (r: Result<(), Rejection>)
        ensures
            r is Ok <==> named(self.name@) && self.price >= 0 && spec_wallet_currency(self.currency@),
            r is Err ==> r == Err::<(), Rejection>(Rejection::BadRequest),
    {
        check_new_avatar(self.name.as_str(), self.price, self.currency.as_str())
    }
}

pub struct UpdateAvatarRequest {
    pub name: Option<String>,
    pub price: Option<i64>,
    pub currency: Option<String>,
    pub is_active: Option<bool>,
}

impl UpdateAvatarRequest {
    pub fn check(&self) -> (r: Result<(), Rejection>)
        ensures
            r is Ok <==> (self.price matches Some(p) ==> p >= 0) && (self.currency matches Some(c) ==> spec_wallet_currency(c@))
                && (self.name matches Some(n) ==> named(n@)),
            r is Err ==> r == Err::<(), Rejection>(Rejection::BadRequest),
    {
        let name = match &self.name {
            Some(n) => Some(n.as_str()),
            None => None,
        };
        let currency = match &self.currency {
            Some(c) => Some(c.as_str()),
            None => None,
        };
        check_avatar_update(name, self.price, currency)
    }
}


/// The store currencies are the three wallet currencies and `iap`, each
/// read as its own currency; nothing else is one.
pub proof fn law_store_currencies(s: Seq<char>)
    ensures
        store_currency_named("high"@) == Some(StoreCurrency::High),
        store_currency_named("soft"@) == Some(StoreCurrency::Soft),
        store_currency_named("energy"@) == Some(StoreCurrency::Energy),
        store_currency_named("iap"@) == Some(StoreCurrency::Iap),
        store_currency_named(s) is Some <==> (s == "high"@ || s == "soft"@ || s == "energy"@ || s == "iap"@),
        (s == "high"@ || s == "soft"@ || s == "energy"@) ==> (store_currency_named(s) is Some
            && store_currency_named(s) != Some(StoreCurrency::Iap)),
{
    reveal_strlit("high");
    reveal_strlit("soft");
    reveal_strlit("energy");
    reveal_strlit("iap");
    assert("high"@[0] != "soft"@[0]);
    assert("high"@.len() != "energy"@.len());
    assert("high"@.len() != "iap"@.len());
    assert("soft"@.len() != "energy"@.len());
    assert("soft"@.len() != "iap"@.len());
    assert("energy"@.len() != "iap"@.len());
}

/// What a store item's kind must be, in terms of its fields: a known type, a
/// store currency, a valid payload, and, when sold for real money, a product
/// id that is not empty. An item priced in a wallet currency needs no
/// product id.
pub proof fn law_item_kinds(type_known: bool, currency: Seq<char>, iap: Option<Seq<char>>, payload_valid: bool)
    ensures
        spec_item_kind_ok(type_known, currency, iap, payload_valid) ==> type_known && payload_valid
            && (currency == "high"@ || currency == "soft"@ || currency == "energy"@ || currency == "iap"@),
        spec_item_kind_ok(type_known, currency, iap, payload_valid) && currency == "iap"@
            ==> (iap matches Some(p) && p.len() > 0),
        type_known && payload_valid && (currency == "high"@ || currency == "soft"@ || currency == "energy"@)
            ==> spec_item_kind_ok(type_known, currency, iap, payload_valid),
        type_known && payload_valid && currency == "iap"@ && (iap matches Some(p) && p.len() > 0)
            ==> spec_item_kind_ok(type_known, currency, iap, payload_valid),
{
    law_store_currencies(currency);
}

/// The rarities: each is stored under its own name and read back from it,
/// and the five names are exactly the rarities.
pub proof fn law_rarities(r: Rarity, s: Seq<char>)
    ensures
        rarity_named(rarity_name(r)) == Some(r),
        rarity_named(s) is Some <==> (s == "common"@ || s == "uncommon"@ || s == "rare"@ || s == "epic"@ || s == "legendary"@),
        rarity_named("common"@) == Some(Rarity::Common),
        rarity_named("legendary"@) == Some(Rarity::Legendary),
{
    reveal_strlit("common");
    reveal_strlit("uncommon");
    reveal_strlit("rare");
    reveal_strlit("epic");
    reveal_strlit("legendary");
    assert("common"@.len() != "uncommon"@.len());
    assert("common"@.len() != "rare"@.len());
    assert("common"@.len() != "epic"@.len());
    assert("common"@.len() != "legendary"@.len());
    assert("uncommon"@.len() != "rare"@.len());
    assert("uncommon"@.len() != "epic"@.len());
    assert("uncommon"@.len() != "legendary"@.len());
    assert("rare"@[0] != "epic"@[0]);
    assert("rare"@.len() != "legendary"@.len());
    assert("epic"@.len() != "legendary"@.len());
}

} // verus!
