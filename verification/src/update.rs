//! Keys pressed by the user and the messages exchanged with the background
//! task that fetches market figures.
use vstd::prelude::*;
use crate::app::{focusable, input_backspace_rel, input_char_rel, next_page_rel, previous_page_rel, state_wf, tab_rel, AppState};
use crate::decimal::Decimal;
use crate::focus::CurrentFocus;
use crate::pages::add_transaction;
use crate::pages::transactions;
use crate::pages::Page;
use crate::types::{Currency, TickerData, Transaction};

verus! {

/// A request to the background task.
#[derive(Debug)]
pub enum UpdateRequest {
    /// The value of the portfolio of these transactions, in the currency.
    PortfolioValue(Vec<Transaction>, Currency),
    /// The figures of the ticker in the portfolio of these transactions.
    TickerData(String, Vec<Transaction>, Currency),
}

/// A message of the background task.
#[derive(Debug)]
pub enum UpdateMessage {
    PortfolioValue(Decimal),
    Ticker { ticker: String, data: TickerData },
    Error(String),
}

/// The keys that the application tells apart.
#[derive(Debug, Clone, Copy, PartialEq, Eq, Structural)]
pub enum KeyCode {
    Char(char),
    Backspace,
    Enter,
    Left,
    Right,
    Tab,
    BackTab,
    Esc,
    /// Any other key.
    Other,
}

/// A key press.
#[derive(Debug, Clone, Copy, PartialEq, Eq, Structural)]
pub struct KeyEvent {
    pub code: KeyCode,
    /// The modifiers held are exactly Control.
    pub control: bool,
}

/// What the caller has to do after a key press.
#[derive(Debug, Clone, Copy, PartialEq, Eq, Structural)]
pub enum KeyOutcome {
    Nothing,
    /// Store the transaction of the form (see `AppState::save_new_transaction`).
    SaveTransaction,
}

/// The digit of a character `0` to `9`.
pub open spec fn digit_of(c: char) -> Option<usize> {
    if '0' <= c && c <= '9' {
        Some((c as u32 - '0' as u32) as usize)
    } else {
        None
    }
}

/// The inputs on which a key press cannot be handled: Enter on a page
/// without fields, and the digit `0` on a focused page with fields.
pub open spec fn key_fails(a: AppState, key: KeyEvent) -> bool {
    &&& !a.input_mode
    &&& match key.code {
        KeyCode::Enter => !a.current_page_focused && !focusable(a.current_page),
        KeyCode::Char(c) => c == '0' && a.current_page_focused && focusable(a.current_page),
        _ => false,
    }
}

/// The change that a key press makes to the state.
///
/// In any mode Ctrl-C quits. In input mode another character is typed,
/// backspace deletes, Esc leaves input mode and Tab steps the focused
/// selector. Otherwise: `l` or Right pages forward and `h` or Left back (where the page is not focused);
/// `?` shows the hotkeys; Ctrl-, opens the settings; a digit focuses that
/// field; `a` opens the form for a new transaction; Enter focuses the page or
/// enters input mode on the focused field; Esc leaves input mode, the field
/// or the page, in that order.
pub open spec fn key_rel(a: AppState, b: AppState, key: KeyEvent) -> bool {
    if a.input_mode {
        match key.code {
            KeyCode::Char(c) => if (c == 'c' || c == 'C') && key.control {
                b == AppState { should_quit: true, ..a }
            } else {
                input_char_rel(a, b, c)
            },
            KeyCode::Backspace => input_backspace_rel(a, b),
            KeyCode::Esc => b == AppState { input_mode: false, ..a },
            KeyCode::Tab => tab_rel(a, b, true),
            _ => b == a,
        }
    } else {
        match key.code {
            KeyCode::Char(c) => if (c == 'c' || c == 'C') && key.control {
                b == AppState { should_quit: true, ..a }
            } else if c == 'l' {
                if a.current_page_focused { b == a } else { next_page_rel(a, b) }
            } else if c == 'h' {
                if a.current_page_focused { b == a } else { previous_page_rel(a, b) }
            } else if c == '?' {
                b == AppState { current_action: crate::app::Action::Hotkeys, ..a }
            } else if c == ',' && key.control {
                b == AppState { current_page: Page::Settings(Box::new(a.current_page)), ..a }
            } else if digit_of(c) is Some {
                crate::app::layout_focus_rel(a, b, digit_of(c))
            } else if c == 'a' {
                b == AppState {
                    current_page: Page::AddTransaction,
                    focused_field: CurrentFocus::AddTransaction(add_transaction::InputFocus::Ticker),
                    current_page_focused: true,
                    ..a
                }
            } else {
                b == a
            },
            KeyCode::Right => if a.current_page_focused { b == a } else { next_page_rel(a, b) },
            KeyCode::Left => if a.current_page_focused { b == a } else { previous_page_rel(a, b) },
            KeyCode::Enter => if !a.current_page_focused {
                crate::app::focus_page_rel(a, b)
            } else if a.focused_field == CurrentFocus::Unfocused {
                b == a
            } else {
                b == AppState { input_mode: true, ..a }
            },
            KeyCode::Esc => if a.focused_field != CurrentFocus::Unfocused {
                b == AppState { focused_field: CurrentFocus::Unfocused, ..a }
            } else if a.current_page_focused {
                b == AppState { current_page_focused: false, ..a }
            } else {
                b == a
            },
            _ => b == a,
        }
    }
}

/// Whether the key press asks to store the form's transaction: `s` on the
/// form page, outside input mode.
pub open spec fn key_saves(a: AppState, key: KeyEvent) -> bool {
    !a.input_mode && key.code == KeyCode::Char('s') && a.current_page == Page::AddTransaction
}

/// Whether a key press cannot be handled (see `keyboard_update`).
pub fn key_would_fail(app: &AppState, key: KeyEvent) -> (r: bool)
    ensures
        r == key_fails(*app, key),
{
    if app.input_mode {
        return false;
    }
    let is_focusable = match app.current_page {
        Page::Transactions | Page::AddTransaction => true,
        _ => false,
    };
    match key.code {
        KeyCode::Enter => !app.current_page_focused && !is_focusable,
        KeyCode::Char(c) => c == '0' && app.current_page_focused && is_focusable,
        _ => false,
    }
}

/// Handles a key press. Storing the form's transaction is left to the
/// caller, which the result asks for.
pub fn keyboard_update(app: &mut AppState, key: KeyEvent) -> (r: KeyOutcome)
    requires
        !key_fails(*old(app), key),
    ensures
        state_wf(*old(app)) ==> state_wf(*final(app)),
        key_saves(*old(app), key) ==> r == KeyOutcome::SaveTransaction && *final(app) == *old(app),
        !key_saves(*old(app), key) ==> r == KeyOutcome::Nothing && key_rel(*old(app), *final(app), key),
{
    if app.input_mode {
        match key.code {
            KeyCode::Char(c) => {
                if (c == 'c' || c == 'C') && key.control {
                    app.quit();
                } else {
                    app.input_char(c);
                }
            },
            KeyCode::Backspace => app.input_backspace(),
            KeyCode::Esc => app.input_mode = false,
            KeyCode::Tab => app.handle_tab(),
            _ => {},
        }
        return KeyOutcome::Nothing;
    }
    match key.code {
        KeyCode::Char(c) => {
            if (c == 'c' || c == 'C') && key.control {
                app.quit();
            } else if c == 'l' {
                if !app.current_page_focused {
                    app.next_page();
                }
            } else if c == 'h' {
                if !app.current_page_focused {
                    app.previous_page();
                }
            } else if c == '?' {
                app.toggle_hotkeys();
            } else if c == ',' && key.control {
                app.open_settings();
            } else if '0' <= c && c <= '9' {
                let index = (c as u32 - '0' as u32) as usize;
                app.handle_layout_focus(Some(index));
            } else if c == 'a' {
                app.add_transaction();
            } else if c == 's' {
                if let Page::AddTransaction = app.current_page {
                    return KeyOutcome::SaveTransaction;
                }
            }
        },
        KeyCode::Right => {
            if !app.current_page_focused {
                app.next_page();
            }
        },
        KeyCode::Left => {
            if !app.current_page_focused {
                app.previous_page();
            }
        },
        KeyCode::Enter => {
            if !app.current_page_focused {
                app.focus_page();
                return KeyOutcome::Nothing;
            }
            match app.focused_field {
                CurrentFocus::Unfocused => {},
                CurrentFocus::TransactionPage(_) => app.input_mode = true,
                CurrentFocus::AddTransaction(_) => app.input_mode = true,
            }
        },
        KeyCode::Esc => {
            if app.focused_field != CurrentFocus::Unfocused {
                app.focused_field = CurrentFocus::Unfocused;
            } else if app.current_page_focused {
                app.unfocus_page();
            }
        },
        _ => {},
    }
    KeyOutcome::Nothing
}

/// The position of a main page in the paging order: dashboard, overview,
/// transactions, dividends.
pub open spec fn page_position(p: Page) -> int {
    match p {
        Page::Dashboard => 0,
        Page::Overview => 1,
        Page::Transactions => 2,
        Page::Dividends => 3,
        _ => -1,
    }
}

/// The plain key press of a character, without Control.
pub open spec fn plain(c: char) -> KeyEvent {
    KeyEvent { code: KeyCode::Char(c), control: false }
}

/// Outside input mode and with the page not focused, `l` moves to the next
/// main page and `h` to the previous one, round the order dashboard,
/// overview, transactions, dividends; `l` acts as Right and `h` as Left.
pub proof fn lemma_paging_keys(a: AppState, b: AppState)
    requires
        !a.input_mode,
        !a.current_page_focused,
        0 <= page_position(a.current_page),
    ensures
        key_rel(a, b, plain('l')) ==> page_position(b.current_page) == (page_position(a.current_page) + 1) % 4,
        key_rel(a, b, plain('h')) ==> page_position(b.current_page) == (page_position(a.current_page) + 3) % 4,
        key_rel(a, b, plain('l')) <==> key_rel(a, b, KeyEvent { code: KeyCode::Right, control: false }),
        key_rel(a, b, plain('h')) <==> key_rel(a, b, KeyEvent { code: KeyCode::Left, control: false }),
        key_rel(a, b, plain('l')) || key_rel(a, b, plain('h')) ==>
            !b.input_mode && !b.current_page_focused && 0 <= page_position(b.current_page),
{
}

/// Outside input mode and with the page not focused, `h` undoes the page
/// change of `l`, and `l` that of `h`.
pub proof fn lemma_paging_round_trip(a: AppState, b: AppState, c: AppState)
    requires
        !a.input_mode,
        !a.current_page_focused,
        0 <= page_position(a.current_page),
    ensures
        key_rel(a, b, plain('l')) && key_rel(b, c, plain('h')) ==> c.current_page == a.current_page,
        key_rel(a, b, plain('h')) && key_rel(b, c, plain('l')) ==> c.current_page == a.current_page,
{
    lemma_paging_keys(a, b);
    if key_rel(a, b, plain('l')) || key_rel(a, b, plain('h')) {
        lemma_paging_keys(b, c);
    }
}

} // verus!
