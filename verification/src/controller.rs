//! The balance-check workflow a front end drives.
//!
//! The original surface of the tool: a key string being edited, a
//! growing list of discovered balances, and paging. Each caller event
//! becomes a [`Message`]; [`WalletBalanceApp::update`] makes every
//! decision — what to reset, which page of addresses to fetch next,
//! how results and failures land in the state — and hands back at
//! most a [`FetchRequest`] for the caller to perform. Rendering and
//! the fetch itself stay outside.

use vstd::prelude::*;
use vstd::string::StringExecFns;

use crate::engine::{AddressBalance, PageRequest};

verus! {

/// How many flat addresses one page covers.
pub const ADDRESSES_PER_PAGE: usize = 10;

/// One caller event.
#[derive(Debug)]
pub enum Message {
    /// The key input changed; everything discovered so far is stale.
    XpubInputChanged(String),
    /// The caller asks for a fresh balance check from the first page.
    CheckBalance,
    /// The caller asks for the next page.
    LoadMore,
    /// A page of discovery finished, with its balances or an error text.
    BalanceResult(Result<Vec<AddressBalance>, String>),
}

/// The one piece of outside work an update can ask for: fetch the
/// given flat index range for the given key string.
#[derive(Debug)]
pub struct FetchRequest {
    pub xpub: String,
    pub page: PageRequest,
}

/// `a * b`, capped at the machine's limit.
pub open spec fn spec_cap_mul(a: usize, b: usize) -> usize {
    if a * b <= usize::MAX {
        (a * b) as usize
    } else {
        usize::MAX
    }
}

/// `a + b`, capped at the machine's limit.
pub open spec fn spec_cap_add(a: usize, b: usize) -> usize {
    if a + b <= usize::MAX {
        (a + b) as usize
    } else {
        usize::MAX
    }
}

/// The workflow state: the key being edited, the balances found
/// across pages — appended to, never rewritten — and where paging
/// stands.
pub struct WalletBalanceApp {
    xpub_input: String,
    balances: Vec<AddressBalance>,
    error: Option<String>,
    loading: bool,
    current_page: usize,
    addresses_per_page: usize,
    total_addresses_checked: usize,
}

impl WalletBalanceApp {
    /// The key string as currently entered.
    pub closed spec fn spec_xpub_input(self) -> Seq<char> {
        self.xpub_input@
    }

    /// Every balance discovered so far, in arrival order.
    pub closed spec fn spec_balances(self) -> Seq<AddressBalance> {
        self.balances@
    }

    /// The error being shown, if any.
    pub closed spec fn spec_error(self) -> Option<String> {
        self.error
    }

    /// Whether a fetch is in flight.
    pub closed spec fn spec_loading(self) -> bool {
        self.loading
    }

    /// Which page the workflow stands at.
    pub closed spec fn spec_current_page(self) -> usize {
        self.current_page
    }

    /// How many flat addresses one page covers.
    pub closed spec fn spec_addresses_per_page(self) -> usize {
        self.addresses_per_page
    }

    /// How many addresses have been checked across all pages.
    pub closed spec fn spec_total_checked(self) -> usize {
        self.total_addresses_checked
    }

    /// The flat index range of the current page.
    pub open spec fn spec_page_range(self) -> PageRequest {
        PageRequest {
            start_index: spec_cap_mul(self.spec_current_page(), self.spec_addresses_per_page()),
            end_index: spec_cap_add(
                spec_cap_mul(self.spec_current_page(), self.spec_addresses_per_page()),
                self.spec_addresses_per_page(),
            ),
        }
    }

    /// A fresh workflow: nothing entered, nothing found, first page.
    pub fn new() -> (r: WalletBalanceApp)
        ensures
            r.spec_xpub_input() == Seq::<char>::empty(),
            r.spec_balances() == Seq::<AddressBalance>::empty(),
            r.spec_error() is None,
            !r.spec_loading(),
            r.spec_current_page() == 0,
            r.spec_addresses_per_page() == ADDRESSES_PER_PAGE,
            r.spec_total_checked() == 0,
    {
        WalletBalanceApp {
            xpub_input: String::new(),
            balances: Vec::new(),
            error: None,
            loading: false,
            current_page: 0,
            addresses_per_page: ADDRESSES_PER_PAGE,
            total_addresses_checked: 0,
        }
    }

    /// The flat index range the current page covers, capped at the
    /// machine's limit far past the discovery horizon.
    pub fn calculate_address_range(&self) -> (r: (usize, usize))
        ensures
            r.0 == self.spec_page_range().start_index,
            r.1 == self.spec_page_range().end_index,
    {
        let start = match self.current_page.checked_mul(self.addresses_per_page) {
            Some(v) => v,
            None => usize::MAX,
        };
        let end = start.saturating_add(self.addresses_per_page);
        (start, end)
    }

    /// Absorbs one caller event and decides what outside work, if
    /// any, the caller owes: editing the key resets the discovery,
    /// a check or a load-more turns one page range into a fetch, and
    /// a page's result lands in the accumulated state — balances are
    /// appended, an error is shown alongside whatever was already
    /// found.
    pub fn update(&mut self, message: Message) -> (r: Option<FetchRequest>)
        ensures
            final(self).spec_addresses_per_page() == old(self).spec_addresses_per_page(),
            match message {
                Message::XpubInputChanged(v) => {
                    &&& r is None
                    &&& final(self).spec_xpub_input() == v@
                    &&& final(self).spec_current_page() == 0
                    &&& final(self).spec_balances() == Seq::<AddressBalance>::empty()
                    &&& final(self).spec_total_checked() == 0
                    &&& final(self).spec_loading() == old(self).spec_loading()
                    &&& final(self).spec_error() == old(self).spec_error()
                },
                Message::CheckBalance => {
                    &&& final(self).spec_loading()
                    &&& final(self).spec_error() is None
                    &&& final(self).spec_current_page() == 0
                    &&& final(self).spec_balances() == Seq::<AddressBalance>::empty()
                    &&& final(self).spec_total_checked() == 0
                    &&& final(self).spec_xpub_input() == old(self).spec_xpub_input()
                    &&& r matches Some(f) && f.xpub@ == old(self).spec_xpub_input() && f.page
                        == final(self).spec_page_range()
                },
                Message::LoadMore => {
                    if old(self).spec_loading() {
                        r is None && *final(self) == *old(self)
                    } else {
                        &&& final(self).spec_loading()
                        &&& final(self).spec_current_page() == spec_cap_add(
                            old(self).spec_current_page(),
                            1,
                        )
                        &&& final(self).spec_balances() == old(self).spec_balances()
                        &&& final(self).spec_total_checked() == old(self).spec_total_checked()
                        &&& final(self).spec_xpub_input() == old(self).spec_xpub_input()
                        &&& final(self).spec_error() == old(self).spec_error()
                        &&& r matches Some(f) && f.xpub@ == old(self).spec_xpub_input() && f.page
                            == final(self).spec_page_range()
                    }
                },
                Message::BalanceResult(res) => {
                    &&& r is None
                    &&& !final(self).spec_loading()
                    &&& final(self).spec_xpub_input() == old(self).spec_xpub_input()
                    &&& final(self).spec_current_page() == old(self).spec_current_page()
                    &&& match res {
                        Ok(new_balances) => {
                            &&& final(self).spec_balances() == old(self).spec_balances()
                                + new_balances@
                            &&& final(self).spec_total_checked() == spec_cap_add(
                                old(self).spec_total_checked(),
                                new_balances@.len() as usize,
                            )
                            &&& final(self).spec_error() == old(self).spec_error()
                        },
                        Err(e) => {
                            &&& final(self).spec_balances() == old(self).spec_balances()
                            &&& final(self).spec_total_checked() == old(self).spec_total_checked()
                            &&& final(self).spec_error() matches Some(msg) && msg@
                                == "Error (showing partial results): "@ + e@
                        },
                    }
                },
            },
    {
        match message {
            Message::XpubInputChanged(value) => {
                self.xpub_input = value;
                self.current_page = 0;
                self.balances = Vec::new();
                self.total_addresses_checked = 0;
                None
            },
            Message::CheckBalance => {
                self.loading = true;
                self.error = None;
                self.current_page = 0;
                self.balances = Vec::new();
                self.total_addresses_checked = 0;
                let range = self.calculate_address_range();
                Some(
                    FetchRequest {
                        xpub: self.xpub_input.clone(),
                        page: PageRequest { start_index: range.0, end_index: range.1 },
                    },
                )
            },
            Message::LoadMore => {
                if !self.loading {
                    self.loading = true;
                    self.current_page = self.current_page.saturating_add(1);
                    let range = self.calculate_address_range();
                    Some(
                        FetchRequest {
                            xpub: self.xpub_input.clone(),
                            page: PageRequest { start_index: range.0, end_index: range.1 },
                        },
                    )
                } else {
                    None
                }
            },
            Message::BalanceResult(result) => {
                self.loading = false;
                match result {
                    Ok(mut new_balances) => {
                        let n = new_balances.len();
                        self.total_addresses_checked = self.total_addresses_checked.saturating_add(
                            n,
                        );
                        self.balances.append(&mut new_balances);
                    },
                    Err(e) => {
                        let mut msg = "Error (showing partial results): ".to_owned();
                        msg.append(e.as_str());
                        self.error = Some(msg);
                    },
                }
                None
            },
        }
    }

    /// The key string as currently entered.
    pub fn xpub_input(&self) -> (r: &str)
        ensures
            r@ == self.spec_xpub_input(),
    {
        self.xpub_input.as_str()
    }

    /// Every balance discovered so far, in arrival order.
    pub fn balances(&self) -> (r: &Vec<AddressBalance>)
        ensures
            r@ == self.spec_balances(),
    {
        &self.balances
    }

    /// The error being shown, if any.
    pub fn error(&self) -> (r: &Option<String>)
        ensures
            *r == self.spec_error(),
    {
        &self.error
    }

    /// Whether a fetch is in flight.
    pub fn loading(&self) -> (r: bool)
        ensures
            r == self.spec_loading(),
    {
        self.loading
    }

    /// Which page the workflow stands at.
    pub fn current_page(&self) -> (r: usize)
        ensures
            r == self.spec_current_page(),
    {
        self.current_page
    }

    /// How many addresses have been checked across all pages.
    pub fn total_addresses_checked(&self) -> (r: usize)
        ensures
            r == self.spec_total_checked(),
    {
        self.total_addresses_checked
    }
}

} // verus!
