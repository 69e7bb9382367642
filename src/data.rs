use vstd::prelude::*;

use crate::types::{FetchError, StockStatus, WebData};
use crate::util::same_text;

verus! {

/// Relies on chrono's `Utc::now` and `DateTime::timestamp`: the current time
/// in whole seconds since the Unix epoch. `Utc::now` panics on a clock set
/// before the epoch, so whatever it returns is not negative.
#[verifier::external_body]
fn now_seconds() -> (r: i64)
    ensures
        r >= 0,
{
    chrono::Utc::now().timestamp()
}

/// One observation of a product: price, points and availability at a time.
#[derive(Debug, Clone, Copy, PartialEq, Eq, Structural)]
pub struct OnePrice {
    /// Price, in the smallest currency unit.
    pub price: u64,
    /// Reward points granted on purchase.
    pub point: u64,
    /// Reward points as a percentage of the price.
    pub point_ratio: u64,
    /// Availability.
    pub status: StockStatus,
    /// When it was observed, in seconds since the Unix epoch (UTC).
    pub datetime: i64,
}

/// The sample that a fetch made at `datetime` records.
pub open spec fn sample_of(data: WebData, datetime: i64) -> OnePrice {
    OnePrice {
        price: data.price,
        point: data.point,
        point_ratio: data.point_ratio,
        status: data.status,
        datetime,
    }
}

impl OnePrice {
    /// The sample recording `data`, observed at `datetime`.
    pub fn from_web_data(data: &WebData, datetime: i64) -> (r: OnePrice)
        ensures
            r == sample_of(*data, datetime),
    {
        OnePrice {
            price: data.price,
            point: data.point,
            point_ratio: data.point_ratio,
            status: data.status,
            datetime,
        }
    }
}

/// The price history of one product.
#[derive(Debug, Clone)]
pub struct ProductHistory {
    /// An identifier of this application's own; empty until a scheme for it exists.
    pub id: String,
    /// Product name, as the shop gives it.
    pub name: String,
    /// A name that the user chose, if any.
    pub custom_name: Option<String>,
    /// Product page URL: the key of the product in the store.
    pub url: String,
    /// Samples in the order they were taken.
    pub history: Vec<OnePrice>,
    /// Manufacturer.
    pub maker: String,
}

/// `p` is the product that tracking `url` starts with: the fetched name and
/// maker, no id or custom name, and the one sample taken at `datetime`.
pub open spec fn is_new_product(p: ProductHistory, url: Seq<char>, data: WebData, datetime: i64) -> bool {
    &&& p.id@ == Seq::<char>::empty()
    &&& p.name@ == data.name@
    &&& p.custom_name is None
    &&& p.url@ == url
    &&& p.maker@ == data.maker@
    &&& p.history@ == seq![sample_of(data, datetime)]
}

/// `q` is `p` with sample `s` appended to its history, and nothing else changed.
pub open spec fn is_appended(p: ProductHistory, q: ProductHistory, s: OnePrice) -> bool {
    &&& q.id == p.id
    &&& q.name == p.name
    &&& q.custom_name == p.custom_name
    &&& q.url == p.url
    &&& q.maker == p.maker
    &&& q.history@ == p.history@.push(s)
}

impl ProductHistory {
    /// Starts tracking the product at `url` with what one fetch of it read at `datetime`.
    pub fn from_web_data(url: &str, data: WebData, datetime: i64) -> (r: ProductHistory)
        ensures
            is_new_product(r, url@, data, datetime),
    {
        let price = OnePrice::from_web_data(&data, datetime);
        let mut history = Vec::new();
        history.push(price);
        proof {
            reveal_strlit("");
        }
        let r = ProductHistory {
            id: String::from_str(""),
            name: data.name,
            custom_name: None,
            url: String::from_str(url),
            history,
            maker: data.maker,
        };
        assert(r.history@ =~= seq![sample_of(data, datetime)]);
        assert(r.id@ =~= Seq::<char>::empty());
        r
    }

    /// Highest price, lowest price and latest price of the history: the
    /// latest being the last sample in order, not the one with the greatest
    /// timestamp.
    pub fn price_summary(&self) -> (r: (u64, u64, u64))
        requires
            self.history@.len() > 0,
        ensures
            forall|i: int| 0 <= i < self.history@.len() ==> self.history@[i].price <= r.0,
            exists|i: int| 0 <= i < self.history@.len() && self.history@[i].price == r.0,
            forall|i: int| 0 <= i < self.history@.len() ==> r.1 <= self.history@[i].price,
            exists|i: int| 0 <= i < self.history@.len() && self.history@[i].price == r.1,
            r.2 == self.history@.last().price,
    {
        let n = self.history.len();
        let mut high = self.history[0].price;
        let mut low = self.history[0].price;
        let ghost mut high_at: int = 0;
        let ghost mut low_at: int = 0;
        let mut i: usize = 1;
        while i < n
            invariant
                n == self.history@.len(),
                1 <= i <= n,
                forall|j: int| 0 <= j < i ==> self.history@[j].price <= high,
                forall|j: int| 0 <= j < i ==> low <= self.history@[j].price,
                0 <= high_at < i && self.history@[high_at].price == high,
                0 <= low_at < i && self.history@[low_at].price == low,
            decreases n - i,
        {
            let price = self.history[i].price;
            if price > high {
                high = price;
                proof {
                    high_at = i as int;
                }
            }
            if price < low {
                low = price;
                proof {
                    low_at = i as int;
                }
            }
            i = i + 1;
        }
        (high, low, self.history[n - 1].price)
    }

    /// Appends the sample of `data`, observed at `datetime`.
    pub fn add_web_data(&mut self, data: &WebData, datetime: i64)
        ensures
            is_appended(*old(self), *final(self), sample_of(*data, datetime)),
    {
        let item = OnePrice::from_web_data(data, datetime);
        self.history.push(item);
    }
}

/// Why a product could not be added.
#[derive(Debug, Clone, PartialEq, Eq)]
pub enum AddError {
    /// Its page could not be fetched.
    Fetch(FetchError),
    /// The store already tracks its URL.
    AlreadyExists,
}

/// Text of the message for a product whose page could not be fetched; the URL follows it.
pub const FETCH_FAILED_TEXT: &'static str = "データを取得できませんでした";

/// The message reported for the product at `url` when its fetch failed.
pub open spec fn failure_message(url: Seq<char>) -> Seq<char> {
    FETCH_FAILED_TEXT@ + url
}

/// The message reported for the product at `url` when its fetch failed.
fn fetch_failed_message(url: &str) -> (r: String)
    ensures
        r@ == failure_message(url@),
{
    let mut r = String::from_str(FETCH_FAILED_TEXT);
    r.append(url);
    r
}

/// Messages for the failed fetches among `fetched`, in order, where the
/// fetch at position `i` was made for `urls[i]`.
pub open spec fn failure_messages(urls: Seq<Seq<char>>, fetched: Seq<Result<WebData, FetchError>>) -> Seq<Seq<char>>
    decreases fetched.len(),
{
    if fetched.len() == 0 {
        Seq::empty()
    } else {
        let n = fetched.len() - 1;
        let earlier = failure_messages(urls, fetched.take(n));
        if fetched[n] is Err {
            earlier.push(failure_message(urls[n]))
        } else {
            earlier
        }
    }
}

/// How many of the fetches failed.
pub open spec fn count_failed(fetched: Seq<Result<WebData, FetchError>>) -> nat
    decreases fetched.len(),
{
    if fetched.len() == 0 {
        0
    } else {
        let n = fetched.len() - 1;
        count_failed(fetched.take(n)) + if fetched[n] is Err { 1nat } else { 0nat }
    }
}

/// Adding `url` to `old`, where its fetch gave `fetched` and the time was
/// `datetime`, returned `r` and left `new`: a failed fetch and a tracked URL
/// are errors that leave the store as it was; otherwise the new product
/// comes last.
pub open spec fn add_outcome(
    old: AppData,
    new: AppData,
    url: Seq<char>,
    fetched: Result<WebData, FetchError>,
    datetime: i64,
    r: Result<(), AddError>,
) -> bool {
    match fetched {
        Err(e) => r == Err::<(), AddError>(AddError::Fetch(e)) && new == old,
        Ok(data) => if old.tracks(url) {
            r == Err::<(), AddError>(AddError::AlreadyExists) && new == old
        } else {
            &&& r is Ok
            &&& new.histories@.len() == old.histories@.len() + 1
            &&& new.histories@.drop_last() == old.histories@
            &&& is_new_product(new.histories@.last(), url, data, datetime)
        },
    }
}

/// Updating `old`, where the fetch for the product at position `i` gave
/// `fetched[i]` and the time was `datetime`, returned `messages` and left
/// `new`: each product whose fetch succeeded has the new sample appended,
/// the others are as they were, and there is one message per failure.
pub open spec fn update_outcome(
    old: AppData,
    new: AppData,
    fetched: Seq<Result<WebData, FetchError>>,
    datetime: i64,
    messages: Seq<String>,
) -> bool {
    &&& new.histories@.len() == old.histories@.len()
    &&& forall|i: int|
        0 <= i < old.histories@.len() ==> match #[trigger] fetched[i] {
            Ok(data) => is_appended(old.histories@[i], new.histories@[i], sample_of(data, datetime)),
            Err(_) => new.histories@[i] == old.histories@[i],
        }
    &&& messages.map_values(|s: String| s@) == failure_messages(old.urls(), fetched)
}

/// Every tracked product, in the order they were added.
#[derive(Debug, Clone)]
pub struct AppData {
    /// The price history of each tracked product.
    pub histories: Vec<ProductHistory>,
}

impl Default for AppData {
    fn default() -> (r: AppData)
        ensures
            r.histories@.len() == 0,
    {
        AppData::new()
    }
}

impl AppData {
    /// The tracked URLs, in store order.
    pub open spec fn urls(&self) -> Seq<Seq<char>> {
        self.histories@.map_values(|p: ProductHistory| p.url@)
    }

    /// `url` is tracked.
    pub open spec fn tracks(&self, url: Seq<char>) -> bool {
        exists|i: int| 0 <= i < self.histories@.len() && self.histories@[i].url@ == url
    }

    /// No URL is tracked twice, and every product has at least one sample.
    pub open spec fn wf(&self) -> bool {
        &&& forall|i: int, j: int|
            0 <= i < j < self.histories@.len() ==> self.histories@[i].url@ != self.histories@[j].url@
        &&& forall|i: int| 0 <= i < self.histories@.len() ==> self.histories@[i].history@.len() > 0
    }

    /// An empty store.
    pub fn new() -> (r: AppData)
        ensures
            r.histories@.len() == 0,
            r.wf(),
    {
        AppData { histories: Vec::new() }
    }

    /// The URLs of the tracked products, in store order.
    pub fn url_list(&self) -> (r: Vec<String>)
        ensures
            r@.map_values(|s: String| s@) == self.urls(),
    {
        let mut array: Vec<String> = Vec::new();
        let mut i: usize = 0;
        while i < self.histories.len()
            invariant
                i <= self.histories@.len(),
                array@.len() == i,
                forall|j: int| 0 <= j < i ==> array@[j]@ == self.histories@[j].url@,
            decreases self.histories@.len() - i,
        {
            array.push(self.histories[i].url.clone());
            i = i + 1;
        }
        assert(array@.map_values(|s: String| s@) =~= self.urls());
        array
    }

    /// Whether a product with this URL is tracked.
    pub fn contains_url(&self, url: &str) -> (r: bool)
        ensures
            r == self.tracks(url@),
    {
        let mut i: usize = 0;
        while i < self.histories.len()
            invariant
                i <= self.histories@.len(),
                forall|j: int| 0 <= j < i ==> self.histories@[j].url@ != url@,
            decreases self.histories@.len() - i,
        {
            if same_text(self.histories[i].url.as_str(), url) {
                return true;
            }
            i = i + 1;
        }
        false
    }

    /// The product with URL `url`, if one is tracked.
    pub fn borrow_product_by_url(&self, url: &str) -> (r: Option<&ProductHistory>)
        ensures
            r is None <==> !self.tracks(url@),
            r matches Some(p) ==> exists|i: int|
                0 <= i < self.histories@.len() && self.histories@[i] == *p && p.url@ == url@,
    {
        let mut i: usize = 0;
        while i < self.histories.len()
            invariant
                i <= self.histories@.len(),
                forall|j: int| 0 <= j < i ==> self.histories@[j].url@ != url@,
            decreases self.histories@.len() - i,
        {
            if same_text(self.histories[i].url.as_str(), url) {
                return Some(&self.histories[i]);
            }
            i = i + 1;
        }
        None
    }

    /// Where in the store the product with URL `url` stands, if it is tracked.
    pub fn position_of_url(&self, url: &str) -> (r: Option<usize>)
        ensures
            r is None <==> !self.tracks(url@),
            r matches Some(i) ==> i < self.histories@.len() && self.histories@[i as int].url@ == url@,
    {
        let mut i: usize = 0;
        while i < self.histories.len()
            invariant
                i <= self.histories@.len(),
                forall|j: int| 0 <= j < i ==> self.histories@[j].url@ != url@,
            decreases self.histories@.len() - i,
        {
            if same_text(self.histories[i].url.as_str(), url) {
                return Some(i);
            }
            i = i + 1;
        }
        None
    }

    /// The product with URL `url`, if one is tracked, to be changed in place.
    pub fn borrow_mut_product_by_url(&mut self, url: &str) -> (r: Option<&mut ProductHistory>)
        ensures
            r is None <==> !old(self).tracks(url@),
            r is None ==> *final(self) == *old(self),
            r matches Some(p) ==> exists|i: int|
                0 <= i < old(self).histories@.len() && old(self).histories@[i] == *p
                    && p.url@ == url@
                    && final(self).histories@ == old(self).histories@.update(i, *final(p)),
    {
        match self.position_of_url(url) {
            Some(i) => Some(&mut self.histories[i]),
            None => None,
        }
    }

    /// Adds the product at `url`, given what its fetch gave and the time
    /// `datetime`. A failed fetch is returned as `AddError::Fetch`, a URL
    /// that is already tracked as `AddError::AlreadyExists`; either way the
    /// store is left as it was.
    pub fn add_fetched_at(&mut self, url: &str, fetched: Result<WebData, FetchError>, datetime: i64) -> (r: Result<(), AddError>)
        ensures
            add_outcome(*old(self), *final(self), url@, fetched, datetime, r),
            old(self).wf() ==> final(self).wf(),
    {
        let data = match fetched {
            Ok(data) => data,
            Err(e) => {
                return Err(AddError::Fetch(e));
            }
        };
        if self.contains_url(url) {
            return Err(AddError::AlreadyExists);
        }
        let product = ProductHistory::from_web_data(url, data, datetime);
        self.histories.push(product);
        assert(self.histories@.drop_last() =~= old(self).histories@);
        proof {
            if old(self).wf() {
                assert forall|i: int, j: int| 0 <= i < j < self.histories@.len() implies
                    self.histories@[i].url@ != self.histories@[j].url@ by {
                    if j == self.histories@.len() - 1 {
                        assert(old(self).histories@[i] == self.histories@[i]);
                    }
                }
            }
        }
        Ok(())
    }

    /// Adds the product at `url`, given what its fetch gave, with the sample
    /// stamped with the current time. Fails, leaving the store as it was,
    /// with `AddError::Fetch` when the fetch failed and with
    /// `AddError::AlreadyExists` when `url` is already tracked.
    pub fn add_from_url(&mut self, url: &str, fetched: Result<WebData, FetchError>) -> (r: Result<(), AddError>)
        ensures
            exists|t: i64| t >= 0 && add_outcome(*old(self), *final(self), url@, fetched, t, r),
            old(self).wf() ==> final(self).wf(),
    {
        let now = now_seconds();
        self.add_fetched_at(url, fetched, now)
    }

    /// Records a pass of fetches made at time `datetime`, where `fetched[i]`
    /// is what the fetch of the product at position `i` gave. A success
    /// appends its sample to that product; a failure leaves it as it was and
    /// adds a message naming its URL to the result. The URLs being unique,
    /// the product at a position is the one with the URL fetched there.
    pub fn update_all_at(&mut self, fetched: Vec<Result<WebData, FetchError>>, datetime: i64) -> (r: Vec<String>)
        requires
            fetched@.len() == old(self).histories@.len(),
        ensures
            update_outcome(*old(self), *final(self), fetched@, datetime, r@),
            old(self).wf() ==> final(self).wf(),
    {
        let ghost before = *self;
        let mut array: Vec<String> = Vec::new();
        let mut i: usize = 0;
        while i < fetched.len()
            invariant
                fetched@.len() == before.histories@.len(),
                self.histories@.len() == before.histories@.len(),
                i <= fetched@.len(),
                forall|j: int|
                    0 <= j < i ==> match #[trigger] fetched@[j] {
                        Ok(data) => is_appended(before.histories@[j], self.histories@[j], sample_of(data, datetime)),
                        Err(_) => self.histories@[j] == before.histories@[j],
                    },
                forall|j: int| i <= j < self.histories@.len() ==> self.histories@[j] == before.histories@[j],
                array@.map_values(|s: String| s@) == failure_messages(before.urls(), fetched@.take(i as int)),
            decreases fetched@.len() - i,
        {
            assert(fetched@.take(i + 1).take(i as int) =~= fetched@.take(i as int));
            match &fetched[i] {
                Ok(data) => {
                    self.histories[i].add_web_data(data, datetime);
                },
                Err(_) => {
                    let message = fetch_failed_message(self.histories[i].url.as_str());
                    array.push(message);
                    assert(array@.map_values(|s: String| s@) =~= failure_messages(before.urls(), fetched@.take(i as int)).push(failure_message(before.urls()[i as int])));
                },
            }
            i = i + 1;
        }
        assert(fetched@.take(i as int) =~= fetched@);
        proof {
            if before.wf() {
                assert forall|a: int, b: int| 0 <= a < b < self.histories@.len() implies
                    self.histories@[a].url@ != self.histories@[b].url@ by {
                    let _ = fetched@[a];
                    let _ = fetched@[b];
                }
                assert forall|a: int| 0 <= a < self.histories@.len() implies self.histories@[a].history@.len() > 0 by {
                    let _ = fetched@[a];
                }
            }
        }
        array
    }

    /// Records a pass of fetches, `fetched[i]` being what the fetch of the
    /// product at position `i` gave, with new samples stamped with the
    /// current time. Returns one message for each failed fetch, naming its URL.
    pub fn update_all(&mut self, fetched: Vec<Result<WebData, FetchError>>) -> (r: Vec<String>)
        requires
            fetched@.len() == old(self).histories@.len(),
        ensures
            exists|t: i64| t >= 0 && update_outcome(*old(self), *final(self), fetched@, t, r@),
            old(self).wf() ==> final(self).wf(),
    {
        let now = now_seconds();
        self.update_all_at(fetched, now)
    }
}

/// There is one failure message for each failed fetch.
pub proof fn lemma_failure_messages_len(urls: Seq<Seq<char>>, fetched: Seq<Result<WebData, FetchError>>)
    ensures
        failure_messages(urls, fetched).len() == count_failed(fetched),
    decreases fetched.len(),
{
    if fetched.len() > 0 {
        lemma_failure_messages_len(urls, fetched.take(fetched.len() - 1));
    }
}

/// Adding a URL that the store does not track, when its fetch succeeds,
/// succeeds; afterwards the URL is tracked exactly once, by a product whose
/// history holds one sample, and the store is still well formed.
pub proof fn lemma_add_new_url(
    old: AppData,
    new: AppData,
    url: Seq<char>,
    data: WebData,
    datetime: i64,
    r: Result<(), AddError>,
)
    requires
        old.wf(),
        !old.tracks(url),
        add_outcome(old, new, url, Ok(data), datetime, r),
    ensures
        r is Ok,
        new.wf(),
        exists|i: int|
            0 <= i < new.histories@.len() && new.urls()[i] == url && new.histories@[i].history@.len() == 1
                && forall|j: int| 0 <= j < new.histories@.len() && j != i ==> new.urls()[j] != url,
{
    let n = old.histories@.len() as int;
    assert(new.histories@.last() == new.histories@[n]);
    assert(new.urls()[n] == url);
    assert(new.histories@[n].history@.len() == 1);
    assert forall|j: int| 0 <= j < new.histories@.len() && j != n implies new.urls()[j] != url by {
        assert(new.histories@[j] == new.histories@.drop_last()[j]);
    }
    assert forall|a: int, b: int| 0 <= a < b < new.histories@.len() implies
        new.histories@[a].url@ != new.histories@[b].url@ by {
        assert(new.histories@[a] == new.histories@.drop_last()[a]);
        if b < n {
            assert(new.histories@[b] == new.histories@.drop_last()[b]);
        }
    }
    assert forall|a: int| 0 <= a < new.histories@.len() implies new.histories@[a].history@.len() > 0 by {
        if a < n {
            assert(new.histories@[a] == new.histories@.drop_last()[a]);
        }
    }
}

/// Adding a URL that the store already tracks fails, and leaves every
/// product and every history as it was; when its fetch succeeded, the
/// error is `AddError::AlreadyExists`.
pub proof fn lemma_add_tracked_url(
    old: AppData,
    new: AppData,
    url: Seq<char>,
    fetched: Result<WebData, FetchError>,
    datetime: i64,
    r: Result<(), AddError>,
)
    requires
        old.tracks(url),
        add_outcome(old, new, url, fetched, datetime, r),
    ensures
        r is Err,
        fetched is Ok ==> r == Err::<(), AddError>(AddError::AlreadyExists),
        new == old,
        new.histories@.len() == old.histories@.len(),
{
}

/// An update pass appends exactly one sample to each product whose fetch
/// succeeded and none to a product whose fetch failed, and returns as many
/// messages as fetches failed.
pub proof fn lemma_update_counts(
    old: AppData,
    new: AppData,
    fetched: Seq<Result<WebData, FetchError>>,
    datetime: i64,
    messages: Seq<String>,
)
    requires
        fetched.len() == old.histories@.len(),
        update_outcome(old, new, fetched, datetime, messages),
    ensures
        new.histories@.len() == old.histories@.len(),
        forall|i: int| 0 <= i < old.histories@.len() ==> (#[trigger] new.histories@[i]).history@.len()
            == old.histories@[i].history@.len() + if fetched[i] is Ok { 1int } else { 0int },
        messages.len() == count_failed(fetched),
{
    assert forall|i: int| 0 <= i < old.histories@.len() implies (#[trigger] new.histories@[i]).history@.len()
        == old.histories@[i].history@.len() + if fetched[i] is Ok { 1int } else { 0int } by {
        let _ = fetched[i];
    }
    lemma_failure_messages_len(old.urls(), fetched);
    assert(messages.map_values(|s: String| s@).len() == messages.len());
}

} // verus!
