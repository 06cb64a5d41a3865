//! A stock record: one held item (or item variant) and what is published for
//! it on the marketplace.

use vstd::prelude::*;
use vstd::std_specs::cmp::PartialEqSpec;
use vstd::string::StringExecFns;
use crate::enums::{lemma_status_ordinal_injective, StockStatus, TransactionItemType, TransactionType};
use crate::price_history::{PriceHistory, PriceHistoryVec, PRICE_HISTORY_CAP};
use crate::sub_type::{opt_sub_type, SubType, SubTypeView};
use crate::transaction;

verus! {

/// One held item together with its pricing bounds, its published price and
/// the bookkeeping flags of the engine.
#[derive(Clone, Debug, PartialEq, Eq)]
pub struct Model {
    pub id: i64,
    pub wfm_id: String,
    pub wfm_url: String,
    pub item_name: String,
    pub item_unique_name: String,
    /// Present only for items that come in variants.
    pub sub_type: Option<SubType>,
    /// Price paid when the item was acquired.
    pub bought: i64,
    /// Floor set by the user; the engine never prices below it.
    pub minimum_price: Option<i64>,
    /// Price currently published; `None` while nothing is published.
    pub list_price: Option<i64>,
    /// Units held; with none held nothing may be published.
    pub owned: i64,
    /// Keeps the record out of synchronisation altogether.
    pub is_hidden: bool,
    pub status: StockStatus,
    pub price_history: PriceHistoryVec,
    /// Seconds since the Unix epoch.
    pub updated_at: i64,
    /// Seconds since the Unix epoch.
    pub created_at: i64,
    /// Set when a stored field changed and the store has not seen it yet.
    pub is_dirty: bool,
    /// Freezes `list_price` and `status` against automatic changes.
    pub locked: bool,
}

/// Mathematical content of a stock record.
pub struct ModelView {
    pub id: i64,
    pub wfm_id: Seq<char>,
    pub wfm_url: Seq<char>,
    pub item_name: Seq<char>,
    pub item_unique_name: Seq<char>,
    pub sub_type: Option<SubTypeView>,
    pub bought: i64,
    pub minimum_price: Option<i64>,
    pub list_price: Option<i64>,
    pub owned: i64,
    pub is_hidden: bool,
    pub status: StockStatus,
    pub price_history: Seq<PriceHistory>,
    pub updated_at: i64,
    pub created_at: i64,
    pub is_dirty: bool,
    pub locked: bool,
}

impl View for Model {
    type V = ModelView;

    open spec fn view(&self) -> ModelView {
        ModelView {
            id: self.id,
            wfm_id: self.wfm_id@,
            wfm_url: self.wfm_url@,
            item_name: self.item_name@,
            item_unique_name: self.item_unique_name@,
            sub_type: opt_sub_type(self.sub_type),
            bought: self.bought,
            minimum_price: self.minimum_price,
            list_price: self.list_price,
            owned: self.owned,
            is_hidden: self.is_hidden,
            status: self.status,
            price_history: self.price_history@,
            updated_at: self.updated_at,
            created_at: self.created_at,
            is_dirty: self.is_dirty,
            locked: self.locked,
        }
    }
}

impl ModelView {
    /// Whether the price history is within the capacity of a stock record.
    pub open spec fn wf(self) -> bool {
        self.price_history.len() <= PRICE_HISTORY_CAP
    }

    /// Whether the engine may work on the record at all: it is neither
    /// hidden nor locked.
    pub open spec fn eligible(self) -> bool {
        !self.is_hidden && !self.locked
    }

    /// The record after the guarded write of a list price: unchanged when
    /// the record is locked or already carries that price, otherwise the
    /// price is replaced and the record is dirty.
    pub open spec fn with_list_price(self, list_price: Option<i64>) -> ModelView {
        if self.locked || self.list_price == list_price {
            self
        } else {
            ModelView { list_price, is_dirty: true, ..self }
        }
    }

    /// The record after the guarded write of a status: unchanged when the
    /// record is locked or already has that status, otherwise the status is
    /// replaced and the record is dirty.
    pub open spec fn with_status(self, status: StockStatus) -> ModelView {
        if self.locked || self.status == status {
            self
        } else {
            ModelView { status, is_dirty: true, ..self }
        }
    }

    /// The record after the store has written it: no longer dirty.
    pub open spec fn saved(self) -> ModelView {
        ModelView { is_dirty: false, ..self }
    }
}

impl Model {
    /// Whether the record respects the bounds every stock record obeys: its
    /// price history is within capacity.
    pub open spec fn wf(&self) -> bool {
        self.price_history.wf()
    }

    /// Whether the engine may work on the record at all.
    pub open spec fn eligible(&self) -> bool {
        !self.is_hidden && !self.locked
    }

    /// Decides [`Model::eligible`].
    pub fn is_eligible(&self) -> (r: bool)
        ensures
            r == self.eligible(),
            r == self@.eligible(),
    {
        !self.is_hidden && !self.locked
    }

    /// Clears the dirty flag once the store has written the record.
    pub fn mark_saved(&mut self)
        ensures
            *final(self) == (Model { is_dirty: false, ..*old(self) }),
            final(self)@ == old(self)@.saved(),
    {
        self.is_dirty = false;
    }

    /// A freshly acquired record: nothing published, status pending, empty
    /// price history, unlocked, and dirty so that the store picks it up.
    pub fn new(
        wfm_id: String,
        wfm_url: String,
        item_name: String,
        item_unique_name: String,
        sub_type: Option<SubType>,
        bought: i64,
        minimum_price: Option<i64>,
        owned: i64,
        is_hidden: bool,
    ) -> (r: Self)
        ensures
            r.id == 0,
            r.wfm_id == wfm_id,
            r.wfm_url == wfm_url,
            r.item_name == item_name,
            r.item_unique_name == item_unique_name,
            r.sub_type == sub_type,
            r.bought == bought,
            r.minimum_price == minimum_price,
            r.list_price is None,
            r.owned == owned,
            r.is_hidden == is_hidden,
            r.status == StockStatus::Pending,
            r.price_history@ == Seq::<PriceHistory>::empty(),
            r.updated_at == 0,
            r.created_at == 0,
            r.is_dirty,
            !r.locked,
            r.wf(),
    {
        Self {
            id: 0,
            wfm_id,
            wfm_url,
            item_name,
            item_unique_name,
            sub_type,
            bought,
            minimum_price,
            list_price: None,
            owned,
            is_hidden,
            status: StockStatus::Pending,
            price_history: PriceHistoryVec::new(),
            updated_at: 0,
            created_at: 0,
            is_dirty: true,
            locked: false,
        }
    }

    /// The trade that moving `quantity` units of this record at `price`
    /// amounts to: the record supplies the item's identity and variant, the
    /// caller the counterpart, the tags and the direction.
    pub fn to_transaction(
        &self,
        user_name: &str,
        tags: Vec<String>,
        quantity: i64,
        price: i64,
        transaction_type: TransactionType,
    ) -> (t: transaction::Model)
        ensures
            t.id == 0,
            t.wfm_id == self.wfm_id,
            t.wfm_url == self.wfm_url,
            t.item_name == self.item_name,
            t.item_type == TransactionItemType::Item,
            t.item_unique_name == self.item_unique_name,
            t.sub_type == self.sub_type,
            t.tags == tags,
            t.transaction_type == transaction_type,
            t.quantity == quantity,
            t.user_name@ == user_name@,
            t.price == price,
            t.created_at == 0,
            t.updated_at == 0,
    {
        let sub_type = match &self.sub_type {
            Some(s) => Some(s.clone()),
            None => None,
        };
        transaction::Model::new(
            self.wfm_id.clone(),
            self.wfm_url.clone(),
            self.item_name.clone(),
            TransactionItemType::Item,
            self.item_unique_name.clone(),
            sub_type,
            tags,
            transaction_type,
            quantity,
            String::from_str(user_name),
            price,
        )
    }

    fn set_if_changed<T: PartialEq>(current: &mut T, new_value: T, is_dirty: &mut bool)
        requires
            T::obeys_eq_spec(),
        ensures
            (*old(current)).eq_spec(&new_value) ==> *final(current) == *old(current),
            (*old(current)).eq_spec(&new_value) ==> *final(is_dirty) == *old(is_dirty),
            !(*old(current)).eq_spec(&new_value) ==> *final(current) == new_value,
            !(*old(current)).eq_spec(&new_value) ==> *final(is_dirty),
    {
        if *current != new_value {
            *current = new_value;
            *is_dirty = true;
        }
    }

    /// Publishes a new list price on the record unless it is locked; the
    /// record becomes dirty exactly when the price actually changed.
    pub fn set_list_price(&mut self, list_price: Option<i64>)
        ensures
            *final(self) == if old(self).locked || old(self).list_price == list_price {
                *old(self)
            } else {
                (Model { list_price, is_dirty: true, ..*old(self) })
            },
            final(self)@ == old(self)@.with_list_price(list_price),
            old(self).locked ==> final(self).list_price == old(self).list_price,
    {
        if self.locked {
            return ;
        }
        Self::set_if_changed(&mut self.list_price, list_price, &mut self.is_dirty);
    }

    /// Moves the record to a new status unless it is locked; the record
    /// becomes dirty exactly when the status actually changed.
    pub fn set_status(&mut self, status: StockStatus)
        ensures
            *final(self) == if old(self).locked || old(self).status == status {
                *old(self)
            } else {
                (Model { status, is_dirty: true, ..*old(self) })
            },
            final(self)@ == old(self)@.with_status(status),
            old(self).locked ==> final(self).status == old(self).status,
    {
        if self.locked {
            return ;
        }
        proof {
            lemma_status_ordinal_injective(self.status, status);
        }
        Self::set_if_changed(&mut self.status, status, &mut self.is_dirty);
    }
}

} // verus!
