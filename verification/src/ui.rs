//! The application state behind the terminal screen: the selected row, the
//! two-stage delete, the add/edit form and what each key does to them.
//! Drawing, and fetching an EUR quote that a form needs, are left to the
//! application, which reads the state and hands results back.

use vstd::prelude::*;
use crate::calc::{current_value, try_current_value, current_value_spec};
use crate::date::Date;
use crate::decimal::{Dec, opt_dec_view};
use crate::fx::{FxBoard, FxQuote};
use crate::model::{Book, Kind, Position, new_id};
use crate::overlay::{
    build_fits, build_error_spec, built_position_spec, next_field, prev_field, cycled_kind, toggled_currency,
    is_text_field, focused_text, with_focused_text, amount_text_spec, date_text_spec, deref_quote,
};
use crate::text::{push_char, str_eq, owned};

pub use crate::format::{fmt_date, fmt_money, fmt_pct};
pub use crate::overlay::{OverlayMode, OverlayState, Field, ParsedInput, validate_overlay, build_position};

verus! {

/// A key as the logic reads it.
#[derive(Clone, Copy, Debug, PartialEq, Eq, Structural)]
pub enum KeyCode {
    Char(char),
    Up,
    Down,
    Left,
    Right,
    Enter,
    Esc,
    Tab,
    BackTab,
    Backspace,
    Other,
}

/// A key press: the key, and whether Control or Alt was held.
#[derive(Clone, Copy, Debug, PartialEq, Eq, Structural)]
pub struct KeyEvent {
    pub code: KeyCode,
    pub control_or_alt: bool,
}

impl KeyEvent {
    pub fn new(code: KeyCode, control_or_alt: bool) -> (r: KeyEvent)
        ensures
            r == (KeyEvent { code, control_or_alt }),
    {
        KeyEvent { code, control_or_alt }
    }
}

/// The state of the application.
pub struct App {
    pub book: Book,
    pub selected: Option<usize>,
    pub overlay: Option<OverlayState>,
    pub message: Option<String>,
    /// The book changed and is to be saved.
    pub dirty: bool,
    pub fx_board: Option<FxBoard>,
    /// The form was submitted in EUR and waits for a quote (see `submit_with_quote`).
    pub quote_requested: bool,
    /// A first `d` press waits for the second.
    pub delete_armed: bool,
}

/// The row a selection moves to: `i + delta` kept within `0..len`, or the
/// first row where nothing was selected.
pub open spec fn step_index(selected: Option<usize>, delta: int, len: nat) -> usize {
    match selected {
        Some(i) => {
            let v = (i as i64) as int + delta;
            if v < 0 {
                0
            } else if v > len - 1 {
                (len - 1) as usize
            } else {
                v as usize
            }
        },
        None => 0,
    }
}

/// A selection that points into the book.
pub open spec fn selection_valid(a: App) -> bool {
    a.selected matches Some(i) ==> i < a.book.positions.len()
}

/// The text `prefix"name"`.
pub open spec fn quoted_msg(prefix: Seq<char>, name: Seq<char>) -> Seq<char> {
    prefix + seq!['"'] + name + seq!['"']
}

impl App {
    /// Whether a first `d` press is waiting for the second.
    pub open spec fn armed(self) -> bool {
        self.delete_armed
    }

    /// `new` equals `old` but for the selection, the message and the armed delete.
    pub open spec fn same_but_selection(old: App, new: App) -> bool {
        &&& new.book == old.book
        &&& new.overlay == old.overlay
        &&& new.dirty == old.dirty
        &&& new.fx_board == old.fx_board
        &&& new.quote_requested == old.quote_requested
    }

    /// `new` equals `old` but for the form.
    pub open spec fn same_but_overlay(old: App, new: App) -> bool {
        &&& new.book == old.book
        &&& new.selected == old.selected
        &&& new.message == old.message
        &&& new.dirty == old.dirty
        &&& new.fx_board == old.fx_board
        &&& new.quote_requested == old.quote_requested
        &&& new.delete_armed == old.delete_armed
    }

    /// Moving the selection by `delta`: within the book, disarming a pending
    /// delete and clearing the message; nothing to select in an empty book.
    pub open spec fn moved_spec(old: App, new: App, delta: int) -> bool {
        let len = old.book.positions.len();
        &&& App::same_but_selection(old, new)
        &&& !new.armed()
        &&& if len == 0 {
            new.selected is None && new.message == old.message
        } else {
            new.selected == Some(step_index(old.selected, delta, len as nat)) && new.message is None
        }
    }

    /// Opening the empty add form.
    pub open spec fn opened_add_spec(old: App, new: App) -> bool {
        &&& new.book == old.book
        &&& new.selected == old.selected
        &&& new.dirty == old.dirty
        &&& new.fx_board == old.fx_board
        &&& new.quote_requested == old.quote_requested
        &&& !new.armed()
        &&& new.message is None
        &&& new.overlay matches Some(o) && o.mode == OverlayMode::Add && o.focus == Field::Name
            && o.name@.len() == 0 && o.kind == Kind::Tbill && o.currency@ == "USD"@ && o.amount@.len() == 0
            && o.yield_pct@.len() == 0 && o.maturity@.len() == 0 && o.error is None
    }

    /// Opening the edit form on the selected row, where one is selected.
    pub open spec fn opened_edit_spec(old: App, new: App) -> bool {
        match old.selected {
            Some(i) if i < old.book.positions.len() => {
                let p = old.book.positions@[i as int];
                &&& new.book == old.book
                &&& new.selected == old.selected
                &&& new.dirty == old.dirty
                &&& new.fx_board == old.fx_board
                &&& new.quote_requested == old.quote_requested
                &&& !new.armed()
                &&& new.message is None
                &&& new.overlay matches Some(o) && o.mode == (OverlayMode::Edit { index: i })
                    && o.focus == Field::Name && o.name@ == p.name@ && o.kind == p.kind
                    && o.currency@ == p.source_ccy@ && o.amount@ == amount_text_spec(p)
                    && o.yield_pct@ == crate::decimal::dec_text(p.yield_pct@)
                    && o.maturity@ == date_text_spec(p) && o.error is None
            },
            _ => new == old,
        }
    }

    /// The two-stage delete: a first press arms it and asks again; a second
    /// press removes the selected position, keeps the selection in the book and
    /// marks the book changed.
    pub open spec fn delete_spec(old: App, new: App) -> bool {
        match old.selected {
            Some(i) if i < old.book.positions.len() => {
                let ps = old.book.positions@;
                if old.armed() {
                    let rest = ps.remove(i as int);
                    &&& new.book.currency == old.book.currency
                    &&& new.book.positions@ == rest
                    &&& !new.armed()
                    &&& new.dirty
                    &&& new.selected == (if rest.len() == 0 { None } else if i < rest.len() { Some(i) } else { Some((rest.len() - 1) as usize) })
                    &&& new.message matches Some(m) && m@ == quoted_msg("deleted "@, ps[i as int].name@)
                    &&& new.overlay == old.overlay
                    &&& new.fx_board == old.fx_board
                    &&& new.quote_requested == old.quote_requested
                } else {
                    &&& new.book == old.book
                    &&& new.selected == old.selected
                    &&& new.dirty == old.dirty
                    &&& new.armed()
                    &&& new.message matches Some(m) && m@ == quoted_msg("press d again to delete "@, ps[i as int].name@)
                    &&& new.overlay == old.overlay
                    &&& new.fx_board == old.fx_board
                    &&& new.quote_requested == old.quote_requested
                }
            },
            _ => new == old,
        }
    }

    /// The book after a form `o` was submitted with `quote`: the built position
    /// is appended, or replaces the edited one keeping its identifier; the form
    /// closes and the book is marked changed. A refused form stays open with
    /// the message as its error.
    pub open spec fn submitted_spec(old: App, o: OverlayState, new: App, quote: Option<FxQuote>) -> bool {
        let ps = old.book.positions@;
        let nps = new.book.positions@;
        &&& new.selected == old.selected
        &&& new.fx_board == old.fx_board
        &&& new.armed() == old.armed()
        &&& new.book.currency == old.book.currency
        &&& match build_error_spec(o, quote) {
            Some(m) => {
                &&& new.book == old.book
                &&& new.dirty == old.dirty
                &&& new.message == old.message
                &&& new.overlay matches Some(n) && n.error matches Some(e) && e@ == m
                    && n == (OverlayState { error: n.error, ..o })
            },
            None => {
                &&& new.overlay is None
                &&& new.message is None
                &&& new.dirty
                &&& match o.mode {
                    OverlayMode::Edit { index } if index < ps.len() => {
                        &&& nps == ps.update(index as int, nps[index as int])
                        &&& built_position_spec(o, quote, ps[index as int].id, nps[index as int])
                    },
                    _ => {
                        &&& nps.len() == ps.len() + 1
                        &&& nps.take(ps.len() as int) == ps
                        &&& built_position_spec(o, quote, nps.last().id, nps.last())
                    },
                }
            },
        }
    }

    /// Submitting the form: an EUR form asks for a quote and stays open; any
    /// other form is built at once.
    pub open spec fn submit_spec(old: App, new: App) -> bool {
        match old.overlay {
            None => new == old,
            Some(o) => if o.currency@ == "EUR"@ {
                &&& App::same_but_selection(App { quote_requested: true, ..old }, new)
                &&& new.selected == old.selected
                &&& new.message == old.message
                &&& new.armed() == old.armed()
            } else {
                &&& new.quote_requested == old.quote_requested
                &&& App::submitted_spec(old, o, new, None)
            },
        }
    }

    /// Submitting with the fetched quote: a failed fetch leaves the form open
    /// with the error; a quote builds the position.
    pub open spec fn quoted_spec(old: App, new: App, fetched: Result<FxQuote, String>) -> bool {
        &&& !new.quote_requested
        &&& match old.overlay {
            None => App::same_but_selection(App { quote_requested: false, ..old }, new)
                && new.selected == old.selected && new.message == old.message && new.armed() == old.armed(),
            Some(o) => match fetched {
                Err(e) => {
                    &&& new.book == old.book
                    &&& new.selected == old.selected
                    &&& new.message == old.message
                    &&& new.dirty == old.dirty
                    &&& new.fx_board == old.fx_board
                    &&& new.armed() == old.armed()
                    &&& new.overlay == Some(OverlayState { error: Some(e), ..o })
                },
                Ok(q) => App::submitted_spec(old, o, new, Some(q)),
            },
        }
    }

    /// What a key does while the form is open: Esc closes it, Enter submits,
    /// Tab/Down and BackTab/Up move the focus, Backspace and characters edit the
    /// focused text field, Left/Right (and Space) change the kind or currency.
    pub open spec fn overlay_key_spec(old: App, new: App, key: KeyEvent) -> bool {
        let o = old.overlay->0;
        match key.code {
            KeyCode::Esc => App::same_but_overlay(old, new) && new.overlay is None,
            KeyCode::Enter => App::submit_spec(old, new),
            _ => App::same_but_overlay(old, new) && (new.overlay matches Some(n) && overlay_edit(o, n, key)),
        }
    }

    /// What a key does: with the form open, see `overlay_key_spec`; otherwise
    /// j/Down and k/Up move, a adds, e/Enter edits, d deletes, q/Esc quits.
    pub open spec fn handle_key_spec(old: App, new: App, key: KeyEvent, quit: bool) -> bool {
        if old.overlay is Some {
            !quit && App::overlay_key_spec(old, new, key)
        } else {
            match key.code {
                KeyCode::Char('j') | KeyCode::Down => !quit && App::moved_spec(old, new, 1),
                KeyCode::Char('k') | KeyCode::Up => !quit && App::moved_spec(old, new, -1),
                KeyCode::Char('a') => !quit && App::opened_add_spec(old, new),
                KeyCode::Char('e') | KeyCode::Enter => !quit && App::opened_edit_spec(old, new),
                KeyCode::Char('d') => !quit && App::delete_spec(old, new),
                KeyCode::Char('q') | KeyCode::Esc => quit && new == old,
                _ => !quit && new == old,
            }
        }
    }

    /// A move by `delta` does not overflow `i64`.
    pub open spec fn move_fits(a: App, delta: int) -> bool {
        &&& a.book.positions.len() <= i64::MAX
        &&& a.selected matches Some(i) ==> i64::MIN <= (i as i64) as int + delta <= i64::MAX
    }

    /// The key's work does not overflow: a move stays within `i64`, and an
    /// EUR form is only ever built through `submit_with_quote`.
    pub open spec fn key_fits(a: App, key: KeyEvent) -> bool {
        if a.overlay is None {
            match key.code {
                KeyCode::Char('j') | KeyCode::Down => App::move_fits(a, 1),
                KeyCode::Char('k') | KeyCode::Up => App::move_fits(a, -1),
                _ => true,
            }
        } else {
            true
        }
    }

    /// The application on a book: the first row selected where there is one.
    pub fn new(book: Book) -> (r: Self)
        ensures
            r.book == book,
            r.selected == (if book.positions.len() == 0 { None::<usize> } else { Some(0usize) }),
            r.overlay is None,
            r.message is None,
            !r.dirty,
            r.fx_board is None,
            !r.quote_requested,
            !r.armed(),
    {
        let selected = if book.positions.len() == 0 {
            None
        } else {
            Some(0)
        };
        App {
            book,
            selected,
            overlay: None,
            message: None,
            dirty: false,
            fx_board: None,
            quote_requested: false,
            delete_armed: false,
        }
    }

    /// Selects the next row.
    pub fn next_row(&mut self)
        requires
            App::move_fits(*old(self), 1),
        ensures
            App::moved_spec(*old(self), *final(self), 1),
    {
        self.move_selection(1);
    }

    /// Selects the previous row.
    pub fn prev_row(&mut self)
        requires
            App::move_fits(*old(self), -1),
        ensures
            App::moved_spec(*old(self), *final(self), -1),
    {
        self.move_selection(-1);
    }

    fn move_selection(&mut self, delta: i64)
        requires
            App::move_fits(*old(self), delta as int),
        ensures
            App::moved_spec(*old(self), *final(self), delta as int),
    {
        let len = self.book.positions.len();
        if len == 0 {
            self.selected = None;
            self.delete_armed = false;
            return;
        }
        let next: usize = match self.selected {
            Some(i) => {
                let v: i64 = (i as i64) + delta;
                let top: i64 = (len as i64) - 1;
                if v < 0 {
                    0
                } else if v > top {
                    top as usize
                } else {
                    v as usize
                }
            },
            None => 0,
        };
        self.selected = Some(next);
        self.delete_armed = false;
        self.message = None;
    }

    /// Opens the empty add form.
    pub fn open_add(&mut self)
        ensures
            App::opened_add_spec(*old(self), *final(self)),
    {
        self.overlay = Some(OverlayState::new_add());
        self.delete_armed = false;
        self.message = None;
    }

    /// Opens the edit form on the selected row; nothing without a selection in the book.
    pub fn open_edit(&mut self)
        ensures
            App::opened_edit_spec(*old(self), *final(self)),
    {
        let i = match self.selected {
            Some(i) => i,
            None => return,
        };
        if i >= self.book.positions.len() {
            return;
        }
        let o = OverlayState::from_position(i, &self.book.positions[i]);
        self.overlay = Some(o);
        self.delete_armed = false;
        self.message = None;
    }

    /// The delete key: arms on the first press, removes the selected position on the second.
    pub fn confirm_delete(&mut self)
        ensures
            App::delete_spec(*old(self), *final(self)),
    {
        let i = match self.selected {
            Some(i) => i,
            None => return,
        };
        if i >= self.book.positions.len() {
            return;
        }
        if self.delete_armed {
            let removed = self.book.positions.remove(i);
            self.delete_armed = false;
            self.dirty = true;
            let len = self.book.positions.len();
            self.selected = if len == 0 {
                None
            } else if i < len - 1 {
                Some(i)
            } else {
                Some(len - 1)
            };
            self.message = Some(quoted("deleted ", &removed.name));
        } else {
            self.delete_armed = true;
            let m = quoted("press d again to delete ", &self.book.positions[i].name);
            self.message = Some(m);
        }
    }

    /// Builds the form's position into the book, or leaves the form open with the error.
    fn finish(&mut self, o: OverlayState, quote: Option<&FxQuote>)
        requires
            build_fits(o, deref_quote(quote)),
            old(self).overlay is None,
        ensures
            App::submitted_spec(*old(self), o, *final(self), deref_quote(quote)),
            final(self).quote_requested == old(self).quote_requested,
    {
        let len = self.book.positions.len();
        let id = match o.mode {
            OverlayMode::Add => new_id(),
            OverlayMode::Edit { index } => if index < len {
                self.book.positions[index].id
            } else {
                new_id()
            },
        };
        match build_position(&o, quote, id) {
            Ok(p) => {
                match o.mode {
                    OverlayMode::Edit { index } if index < len => {
                        self.book.positions.set(index, p);
                    },
                    _ => {
                        self.book.positions.push(p);
                        proof {
                            assert(self.book.positions@.take(len as int) =~= old(self).book.positions@);
                        }
                    },
                }
                self.message = None;
                self.dirty = true;
            },
            Err(e) => {
                let mut o = o;
                o.error = Some(e);
                self.overlay = Some(o);
            },
        }
    }

    /// Submits the form. An EUR form needs a quote first: it sets
    /// `quote_requested`, and the application answers with `submit_with_quote`.
    pub fn submit(&mut self)
        ensures
            App::submit_spec(*old(self), *final(self)),
    {
        let o = match self.overlay.take() {
            Some(o) => o,
            None => return,
        };
        if str_eq(o.currency.as_str(), "EUR") {
            self.overlay = Some(o);
            self.quote_requested = true;
            return;
        }
        self.finish(o, None);
    }

    /// Completes an EUR submission with the fetched quote, or with the error of the fetch.
    pub fn submit_with_quote(&mut self, fetched: Result<FxQuote, String>)
        requires
            match (old(self).overlay, fetched) {
                (Some(o), Ok(q)) => build_fits(o, Some(q)),
                _ => true,
            },
        ensures
            App::quoted_spec(*old(self), *final(self), fetched),
    {
        self.quote_requested = false;
        let mut o = match self.overlay.take() {
            Some(o) => o,
            None => return,
        };
        match fetched {
            Err(e) => {
                o.error = Some(e);
                self.overlay = Some(o);
            },
            Ok(q) => {
                self.finish(o, Some(&q));
            },
        }
    }

    /// `submit_with_quote` where the EUR principal does not overflow; false
    /// (and nothing changed) where it would.
    pub fn try_submit_with_quote(&mut self, fetched: Result<FxQuote, String>) -> (done: bool)
        ensures
            done <==> match (old(self).overlay, fetched) {
                (Some(o), Ok(q)) => build_fits(o, Some(q)),
                _ => true,
            },
            done ==> App::quoted_spec(*old(self), *final(self), fetched),
            !done ==> *final(self) == *old(self),
    {
        let fits = match (&self.overlay, &fetched) {
            (Some(o), Ok(q)) => match validate_overlay(o) {
                Ok(input) => !str_eq(o.currency.as_str(), "EUR") || input.amount.checked_mul(&q.rate).is_some(),
                Err(_) => true,
            },
            _ => true,
        };
        if !fits {
            return false;
        }
        self.submit_with_quote(fetched);
        true
    }
}

/// `prefix"name"`.
fn quoted(prefix: &str, name: &String) -> (r: String)
    ensures
        r@ == quoted_msg(prefix@, name@),
{
    let mut m = owned(prefix);
    push_char(&mut m, '"');
    m.append(name.as_str());
    push_char(&mut m, '"');
    m
}

/// What the form does with a key.
fn overlay_key(app: &mut App, key: KeyEvent)
    requires
        old(app).overlay is Some,
    ensures
        App::overlay_key_spec(*old(app), *final(app), key),
{
    match key.code {
        KeyCode::Esc => {
            app.overlay = None;
            return;
        },
        KeyCode::Enter => {
            app.submit();
            return;
        },
        _ => {},
    }
    let mut o = match app.overlay.take() {
        Some(o) => o,
        None => return,
    };
    match key.code {
        KeyCode::Tab | KeyCode::Down => o.focus_next(),
        KeyCode::BackTab | KeyCode::Up => o.focus_prev(),
        KeyCode::Backspace => o.text_buffer_pop(),
        KeyCode::Left => match o.focus {
            Field::Kind => o.cycle_kind(false),
            Field::Currency => o.toggle_currency(),
            _ => {},
        },
        KeyCode::Right => match o.focus {
            Field::Kind => o.cycle_kind(true),
            Field::Currency => o.toggle_currency(),
            _ => {},
        },
        KeyCode::Char(c) => {
            if c == ' ' && (o.focus == Field::Kind || o.focus == Field::Currency) {
                match o.focus {
                    Field::Kind => o.cycle_kind(true),
                    Field::Currency => o.toggle_currency(),
                    _ => {},
                }
            } else if !key.control_or_alt {
                o.text_buffer_push(c);
            }
        },
        _ => {},
    }
    app.overlay = Some(o);
}

/// How the form changes under a key other than Esc and Enter.
pub open spec fn overlay_edit(o: OverlayState, n: OverlayState, key: KeyEvent) -> bool {
    match key.code {
        KeyCode::Tab | KeyCode::Down => n == (OverlayState { focus: next_field(o.focus), ..o }),
        KeyCode::BackTab | KeyCode::Up => n == (OverlayState { focus: prev_field(o.focus), ..o }),
        KeyCode::Backspace => if is_text_field(o.focus) {
            with_focused_text(o, n, if focused_text(o).len() == 0 { focused_text(o) } else { focused_text(o).drop_last() })
        } else {
            n == o
        },
        KeyCode::Left => overlay_choice(o, n, false),
        KeyCode::Right => overlay_choice(o, n, true),
        KeyCode::Char(c) => if c == ' ' && (o.focus == Field::Kind || o.focus == Field::Currency) {
            overlay_choice(o, n, true)
        } else if !key.control_or_alt && is_text_field(o.focus) {
            with_focused_text(o, n, focused_text(o).push(c))
        } else {
            n == o
        },
        _ => n == o,
    }
}

/// Left/Right/Space on the form: cycle the kind, or toggle the currency.
pub open spec fn overlay_choice(o: OverlayState, n: OverlayState, forward: bool) -> bool {
    match o.focus {
        Field::Kind => n == (OverlayState { kind: cycled_kind(o.kind, forward), ..o }),
        Field::Currency => n.currency@ == toggled_currency(o.currency@) && n == (OverlayState { currency: n.currency, ..o }),
        _ => n == o,
    }
}

/// Applies a key to the application; true when the key quits.
pub fn handle_key(app: &mut App, key: KeyEvent) -> (quit: bool)
    requires
        App::key_fits(*old(app), key),
    ensures
        App::handle_key_spec(*old(app), *final(app), key, quit),
{
    if app.overlay.is_some() {
        overlay_key(app, key);
        return false;
    }
    match key.code {
        KeyCode::Char('j') | KeyCode::Down => {
            app.next_row();
            false
        },
        KeyCode::Char('k') | KeyCode::Up => {
            app.prev_row();
            false
        },
        KeyCode::Char('a') => {
            app.open_add();
            false
        },
        KeyCode::Char('e') | KeyCode::Enter => {
            app.open_edit();
            false
        },
        KeyCode::Char('d') => {
            app.confirm_delete();
            false
        },
        KeyCode::Char('q') | KeyCode::Esc => true,
        _ => false,
    }
}

/// The label of a kind in the table and the form.
pub fn kind_label(kind: &Kind) -> (r: &'static str)
    ensures
        r@ == match *kind {
            Kind::Tbill => "T-Bill"@,
            Kind::Deposit => "Deposit"@,
            Kind::Other => "Other"@,
        },
{
    match kind {
        Kind::Tbill => "T-Bill",
        Kind::Deposit => "Deposit",
        Kind::Other => "Other",
    }
}

/// The column headers of the book table.
pub open spec fn headers_spec() -> Seq<Seq<char>> {
    seq!["#"@, "TYPE"@, "NAME"@, "PRINCIPAL"@, "YIELD"@, "MATURITY"@, "DAY"@, "WEEK"@, "MONTH"@, "YEAR"@]
}

/// The column headers of the book table.
pub fn book_headers() -> (r: [&'static str; 10])
    ensures
        r@.len() == 10,
        forall|i: int| 0 <= i < 10 ==> (#[trigger] r@[i])@ == headers_spec()[i],
{
    ["#", "TYPE", "NAME", "PRINCIPAL", "YIELD", "MATURITY", "DAY", "WEEK", "MONTH", "YEAR"]
}

/// How wide a table column is: exactly, or at least, this many cells.
#[derive(Clone, Copy, Debug, PartialEq, Eq, Structural)]
pub enum ColumnWidth {
    Length(u16),
    Min(u16),
}

/// The widths of the book table's columns, one for each header.
pub open spec fn widths_spec() -> Seq<ColumnWidth> {
    seq![
        ColumnWidth::Length(4),
        ColumnWidth::Length(9),
        ColumnWidth::Min(16),
        ColumnWidth::Length(14),
        ColumnWidth::Length(8),
        ColumnWidth::Length(12),
        ColumnWidth::Length(11),
        ColumnWidth::Length(11),
        ColumnWidth::Length(13),
        ColumnWidth::Length(13),
    ]
}

/// The widths of the book table's columns, one for each header.
pub fn book_column_widths() -> (r: [ColumnWidth; 10])
    ensures
        r@ == widths_spec(),
{
    let w = [
        ColumnWidth::Length(4),
        ColumnWidth::Length(9),
        ColumnWidth::Min(16),
        ColumnWidth::Length(14),
        ColumnWidth::Length(8),
        ColumnWidth::Length(12),
        ColumnWidth::Length(11),
        ColumnWidth::Length(11),
        ColumnWidth::Length(13),
        ColumnWidth::Length(13),
    ];
    proof {
        assert(w@ =~= widths_spec());
    }
    w
}

/// A rectangle of terminal cells.
#[derive(Clone, Copy, Debug, PartialEq, Eq, Structural)]
pub struct Area {
    pub x: u16,
    pub y: u16,
    pub width: u16,
    pub height: u16,
}

/// The `width` by `height` rectangle centred in `area`, clipped to it.
pub open spec fn popup_spec(width: u16, height: u16, area: Area) -> Area {
    let dw: int = if area.width >= width { area.width - width } else { 0 };
    let dh: int = if area.height >= height { area.height - height } else { 0 };
    Area {
        x: (area.x + dw / 2) as u16,
        y: (area.y + dh / 2) as u16,
        width: if width <= area.width { width } else { area.width },
        height: if height <= area.height { height } else { area.height },
    }
}

/// The form's rectangle: `width` by `height` cells centred in `area`, at most its size.
pub fn popup_rect(width: u16, height: u16, area: Area) -> (r: Area)
    requires
        area.x + (if area.width >= width { area.width - width } else { 0 }) / 2 <= u16::MAX,
        area.y + (if area.height >= height { area.height - height } else { 0 }) / 2 <= u16::MAX,
    ensures
        r == popup_spec(width, height, area),
{
    let x = area.x + area.width.saturating_sub(width) / 2;
    let y = area.y + area.height.saturating_sub(height) / 2;
    Area {
        x,
        y,
        width: if width <= area.width { width } else { area.width },
        height: if height <= area.height { height } else { area.height },
    }
}

/// The date a row shows: the start date of a deposit, the maturity otherwise.
pub fn row_date(p: &Position) -> (r: Option<&str>)
    ensures
        match (r, if p.kind == Kind::Deposit { p.start_date } else { p.maturity }) {
            (Some(s), Some(d)) => s@ == d@,
            (None, None) => true,
            _ => false,
        },
{
    let d = if p.kind == Kind::Deposit {
        &p.start_date
    } else {
        &p.maturity
    };
    match d {
        Some(s) => Some(s.as_str()),
        None => None,
    }
}

/// The principal a row shows: the current (grown) value of the position.
pub fn display_principal(p: &Position, today: &Date) -> (r: Dec)
    requires
        current_value_spec(*p, *today) is Some,
    ensures
        r@ == current_value_spec(*p, *today)->0,
{
    current_value(p, today)
}

/// `display_principal` where it does not overflow; `None` where it would.
pub fn try_display_principal(p: &Position, today: &Date) -> (r: Option<Dec>)
    ensures
        opt_dec_view(r) == current_value_spec(*p, *today),
{
    match try_current_value(p, today) {
        Some(_) => Some(display_principal(p, today)),
        None => None,
    }
}

} // verus!
