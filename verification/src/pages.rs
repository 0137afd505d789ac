//! The pages of the application and the state that each keeps.
use vstd::prelude::*;
use crate::text;

pub mod add_transaction;
pub mod dashboard;
pub mod overview;
pub mod transactions;

verus! {

/// Which row of a table is selected and which row is shown first.
#[derive(Debug, Clone, Copy, PartialEq, Eq, Structural)]
pub struct TableSelection {
    pub offset: usize,
    pub selected: Option<usize>,
}

impl Default for TableSelection {
    fn default() -> (r: Self)
        ensures
            r.offset == 0,
            r.selected is None,
    {
        TableSelection { offset: 0, selected: None }
    }
}

/// State of the overview page.
#[derive(Debug, Clone, Copy, PartialEq, Eq, Structural)]
pub struct OverviewState {
    pub overview_table: TableSelection,
}

impl Default for OverviewState {
    fn default() -> (r: Self)
        ensures
            r.overview_table == (TableSelection { offset: 0, selected: None }),
    {
        OverviewState { overview_table: TableSelection::default() }
    }
}

/// State of the transactions page.
#[derive(Debug, Clone, Copy, PartialEq, Eq, Structural)]
pub struct TransactionState {
    pub transaction_table: TableSelection,
}

impl Default for TransactionState {
    fn default() -> (r: Self)
        ensures
            r.transaction_table == (TableSelection { offset: 0, selected: None }),
    {
        TransactionState { transaction_table: TableSelection::default() }
    }
}

/// The state kept for the page that is shown.
#[derive(Debug, Clone, Copy, PartialEq, Eq, Structural)]
pub enum PageState {
    /// No page state is kept.
    Blank,
    Overview(OverviewState),
    Transaction(TransactionState),
}

impl PageState {
    /// The overview state, where the overview page's state is kept.
    pub fn overview_mut(&mut self) -> (r: Option<&mut OverviewState>)
        ensures
            (*old(self) is Overview) == (r is Some),
            r matches Some(s) ==> *s == old(self)->Overview_0 && *final(self) == PageState::Overview(*final(s)),
            r is None ==> *final(self) == *old(self),
    {
        match self {
            PageState::Overview(state) => Some(state),
            _ => None,
        }
    }
}

/// A page of the application.
#[derive(Debug, PartialEq, Eq)]
pub enum Page {
    Dashboard,
    Overview,
    Transactions,
    Dividends,
    /// The settings, opened over the page that it holds.
    Settings(Box<Page>),
    AddTransaction,
}

impl Default for Page {
    fn default() -> (r: Self)
        ensures
            r == Page::Dashboard,
    {
        Page::Dashboard
    }
}

impl Page {
    /// The title of the page.
    pub open spec fn title(self) -> Seq<char> {
        match self {
            Page::Dashboard => "Dashboard"@,
            Page::Overview => "Overview"@,
            Page::Transactions => "Transactions"@,
            Page::Dividends => "Dividends"@,
            Page::Settings(_) => "Settings"@,
            Page::AddTransaction => "Add a Transaction"@,
        }
    }

    /// The title of the page.
    pub fn to_string(&self) -> (r: String)
        ensures
            r@ == self.title(),
    {
        match self {
            Page::Dashboard => text::owned("Dashboard"),
            Page::Overview => text::owned("Overview"),
            Page::Transactions => text::owned("Transactions"),
            Page::Dividends => text::owned("Dividends"),
            Page::Settings(_) => text::owned("Settings"),
            Page::AddTransaction => text::owned("Add a Transaction"),
        }
    }

    /// The pages that one pages through, in order.
    pub fn iter() -> (r: Vec<Page>)
        ensures
            r@ == seq![Page::Dashboard, Page::Overview, Page::Transactions, Page::Dividends],
    {
        let mut v: Vec<Page> = Vec::new();
        v.push(Page::Dashboard);
        v.push(Page::Overview);
        v.push(Page::Transactions);
        v.push(Page::Dividends);
        v
    }

    /// A copy of the page.
    pub fn copy(&self) -> (r: Page)
        ensures
            r == *self,
        decreases self,
    {
        match self {
            Page::Dashboard => Page::Dashboard,
            Page::Overview => Page::Overview,
            Page::Transactions => Page::Transactions,
            Page::Dividends => Page::Dividends,
            Page::Settings(inner) => Page::Settings(Box::new((**inner).copy())),
            Page::AddTransaction => Page::AddTransaction,
        }
    }

    /// Whether two pages are the same.
    pub fn same_as(&self, other: &Page) -> (r: bool)
        ensures
            r == (*self == *other),
        decreases self,
    {
        match (self, other) {
            (Page::Dashboard, Page::Dashboard) => true,
            (Page::Overview, Page::Overview) => true,
            (Page::Transactions, Page::Transactions) => true,
            (Page::Dividends, Page::Dividends) => true,
            (Page::Settings(a), Page::Settings(b)) => (**a).same_as(&**b),
            (Page::AddTransaction, Page::AddTransaction) => true,
            _ => false,
        }
    }
}

} // verus!
