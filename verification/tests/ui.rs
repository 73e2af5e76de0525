use chrono::{Datelike, NaiveDate};
use trackfolio::date::Date;
use trackfolio::decimal::Dec;
use trackfolio::format::{fmt_date, fmt_money, fmt_pct};
use trackfolio::fx::FxQuote;
use trackfolio::model::{Book, Kind, Position};
use trackfolio::overlay::{
    build_position, is_iso_date, try_build_position, validate_overlay, Field, OverlayMode, OverlayState,
};
use trackfolio::ui::{
    book_column_widths, book_headers, display_principal, handle_key, kind_label, popup_rect, row_date,
    App, Area, ColumnWidth, KeyCode, KeyEvent,
};

fn dec(s: &str) -> Dec {
    Dec::from_str_exact(s).unwrap()
}

fn key(code: KeyCode) -> KeyEvent {
    KeyEvent::new(code, false)
}

fn type_text(app: &mut App, text: &str) {
    for c in text.chars() {
        assert!(!handle_key(app, key(KeyCode::Char(c))));
    }
}

fn usd_position(name: &str, principal: &str, yield_pct: &str) -> Position {
    Position {
        id: ulid::Ulid::new(),
        kind: Kind::Tbill,
        name: name.to_string(),
        principal_usd: dec(principal),
        yield_pct: dec(yield_pct),
        maturity: None,
        start_date: None,
        source_ccy: "USD".to_string(),
        source_amount: None,
        fx_rate: None,
        fx_date: None,
    }
}

fn two_rows() -> App {
    App::new(Book {
        currency: "USD".to_string(),
        positions: vec![usd_position("a", "1000", "5"), usd_position("b", "2000", "4")],
    })
}

fn empty_app() -> App {
    App::new(Book {
        currency: "USD".to_string(),
        positions: vec![],
    })
}

#[test]
fn fmt_money_zero_and_half_up_edges() {
    assert_eq!(fmt_money(dec("0")), "$0.00");
    assert_eq!(fmt_money(dec("0.004")), "$0.00");
    assert_eq!(fmt_money(dec("0.005")), "$0.01");
    assert_eq!(fmt_money(dec("-0.005")), "-$0.01");
    assert_eq!(fmt_money(dec("1.5")), "$1.50");
}

#[test]
fn fmt_money_thousands_separator() {
    assert_eq!(fmt_money(dec("1234567.891")), "$1,234,567.89");
    assert_eq!(fmt_money(dec("120000")), "$120,000.00");
    assert_eq!(fmt_money(dec("999.995")), "$1,000.00");
    assert_eq!(fmt_money(dec("999")), "$999.00");
    assert_eq!(fmt_money(dec("1000")), "$1,000.00");
}

#[test]
fn fmt_money_negative_thousands() {
    assert_eq!(fmt_money(dec("-1234567.891")), "-$1,234,567.89");
    assert_eq!(fmt_money(dec("100000")), "$100,000.00");
}

#[test]
fn fmt_pct_two_decimals_half_up() {
    assert_eq!(fmt_pct(dec("4.31")), "4.31%");
    assert_eq!(fmt_pct(dec("0")), "0.00%");
    assert_eq!(fmt_pct(dec("4.305")), "4.31%");
    assert_eq!(fmt_pct(dec("3.80")), "3.80%");
    assert_eq!(fmt_pct(dec("5.125")), "5.13%");
}

#[test]
fn fmt_date_dash_for_none() {
    assert_eq!(fmt_date(None), "—");
    assert_eq!(fmt_date(Some("2026-09-26")), "2026-09-26");
}

#[test]
fn book_table_assigns_a_width_to_the_year_column() {
    let headers = book_headers();
    let widths = book_column_widths();
    assert_eq!(headers.len(), widths.len());
    assert_eq!(headers.last().copied(), Some("YEAR"));
    assert_eq!(widths[2], ColumnWidth::Min(16));
}

#[test]
fn kind_labels() {
    assert_eq!(kind_label(&Kind::Tbill), "T-Bill");
    assert_eq!(kind_label(&Kind::Deposit), "Deposit");
    assert_eq!(kind_label(&Kind::Other), "Other");
}

#[test]
fn popup_is_centred_and_clipped() {
    let area = Area { x: 0, y: 0, width: 80, height: 24 };
    assert_eq!(popup_rect(58, 11, area), Area { x: 11, y: 6, width: 58, height: 11 });
    let small = Area { x: 2, y: 1, width: 40, height: 8 };
    assert_eq!(popup_rect(58, 11, small), Area { x: 2, y: 1, width: 40, height: 8 });
}

#[test]
fn new_selects_first_row_and_moves_clamped() {
    let mut app = two_rows();
    assert_eq!(app.selected, Some(0));
    app.next_row();
    assert_eq!(app.selected, Some(1));
    app.next_row();
    assert_eq!(app.selected, Some(1));
    app.prev_row();
    assert_eq!(app.selected, Some(0));
    app.prev_row();
    assert_eq!(app.selected, Some(0));
}

#[test]
fn empty_book_selection_stays_none() {
    let mut app = empty_app();
    assert_eq!(app.selected, None);
    app.next_row();
    app.prev_row();
    assert_eq!(app.selected, None);
}

#[test]
fn delete_is_two_stage() {
    let mut app = two_rows();
    app.confirm_delete();
    assert_eq!(app.book.positions.len(), 2);
    assert!(app.message.as_deref().unwrap().contains("press d again"));
    app.confirm_delete();
    assert_eq!(app.book.positions.len(), 1);
    assert_eq!(app.book.positions[0].name, "b");
    assert!(app.dirty);
    assert_eq!(app.message.as_deref(), Some("deleted \"a\""));
}

#[test]
fn delete_clamps_selection() {
    let mut app = two_rows();
    app.next_row();
    app.confirm_delete();
    app.confirm_delete();
    assert_eq!(app.selected, Some(0));
    app.confirm_delete();
    app.confirm_delete();
    assert_eq!(app.book.positions.len(), 0);
    assert_eq!(app.selected, None);
}

#[test]
fn movement_disarms_pending_delete() {
    let mut app = two_rows();
    app.confirm_delete();
    app.next_row();
    app.confirm_delete();
    assert_eq!(app.book.positions.len(), 2);
}

#[test]
fn delete_without_selection_is_noop() {
    let mut app = empty_app();
    app.confirm_delete();
    app.confirm_delete();
    assert!(app.book.positions.is_empty());
    assert!(!app.dirty);
}

fn overlay(name: &str, amount: &str, yield_pct: &str, maturity: &str) -> OverlayState {
    OverlayState {
        mode: OverlayMode::Add,
        focus: Field::Name,
        name: name.to_string(),
        kind: Kind::Tbill,
        currency: "USD".to_string(),
        amount: amount.to_string(),
        yield_pct: yield_pct.to_string(),
        maturity: maturity.to_string(),
        error: None,
    }
}

fn eur_overlay(name: &str, amount: &str, yield_pct: &str) -> OverlayState {
    let mut state = overlay(name, amount, yield_pct, "");
    state.currency = "EUR".to_string();
    state
}

#[test]
fn validation_rejects_missing_fields() {
    assert_eq!(validate_overlay(&overlay("", "100", "5", "")).unwrap_err(), "name is required");
    assert_eq!(validate_overlay(&overlay("a", "abc", "5", "")).unwrap_err(), "amount must be a number");
    assert_eq!(
        validate_overlay(&overlay("a", "0", "5", "")).unwrap_err(),
        "amount must be greater than zero"
    );
    assert_eq!(
        validate_overlay(&overlay("a", "-1", "5", "")).unwrap_err(),
        "amount must be greater than zero"
    );
    assert_eq!(validate_overlay(&overlay("a", "100", "xyz", "")).unwrap_err(), "yield must be a number");
    assert_eq!(
        validate_overlay(&overlay("a", "100", "-0.1", "")).unwrap_err(),
        "yield must be zero or greater"
    );
}

#[test]
fn validation_trims_and_accepts_zero_yield() {
    let input = validate_overlay(&overlay(" a ", " 100 ", " 0 ", "")).unwrap();
    assert_eq!(input.amount, dec("100"));
    assert_eq!(input.yield_pct, Dec::zero());
    assert_eq!(validate_overlay(&overlay("   ", "100", "5", "")).unwrap_err(), "name is required");
}

#[test]
fn validation_maturity_is_strict_iso_date() {
    assert!(validate_overlay(&overlay("a", "100", "5", "")).is_ok());
    assert!(validate_overlay(&overlay("a", "100", "5", "2026-09-26")).is_ok());
    assert_eq!(
        validate_overlay(&overlay("a", "100", "5", "garbage")).unwrap_err(),
        "maturity must be YYYY-MM-DD"
    );
    assert_eq!(
        validate_overlay(&overlay("a", "100", "5", "2026-13-01")).unwrap_err(),
        "maturity must be YYYY-MM-DD"
    );
    assert_eq!(
        validate_overlay(&overlay("a", "100", "5", "2026-02-30")).unwrap_err(),
        "maturity must be YYYY-MM-DD"
    );
    assert_eq!(
        validate_overlay(&overlay("a", "100", "5", "2026-9-6")).unwrap_err(),
        "maturity must be YYYY-MM-DD"
    );
}

#[test]
fn iso_dates_are_strict() {
    assert!(is_iso_date("2026-09-26"));
    assert!(is_iso_date("2024-02-29"));
    assert!(!is_iso_date("2026-9-6"));
    assert!(!is_iso_date("2025-02-29"));
    assert!(!is_iso_date(""));
}

#[test]
fn build_position_usd_has_null_fx_metadata() {
    let p = build_position(&overlay("  T-Bill 4w  ", "50000", "5.12", "2026-09-26"), None, ulid::Ulid::new())
        .unwrap();
    assert_eq!(p.name, "T-Bill 4w");
    assert_eq!(p.principal_usd, dec("50000"));
    assert_eq!(p.yield_pct, dec("5.12"));
    assert_eq!(p.maturity.as_deref(), Some("2026-09-26"));
    assert_eq!(p.source_ccy, "USD");
    assert_eq!(p.source_amount, None);
    assert_eq!(p.fx_rate, None);
    assert_eq!(p.fx_date, None);
}

#[test]
fn build_position_deposit_writes_start_date_and_clears_maturity() {
    let mut state = overlay("Deposit", "30000", "3.8", "2025-08-30");
    state.kind = Kind::Deposit;
    let p = build_position(&state, None, ulid::Ulid::new()).unwrap();
    assert_eq!(p.start_date.as_deref(), Some("2025-08-30"));
    assert_eq!(p.maturity, None);
}

#[test]
fn build_position_tbill_sets_maturity_and_start_date_is_none() {
    let p = build_position(&overlay("T-Bill", "50000", "5.12", "2026-09-26"), None, ulid::Ulid::new()).unwrap();
    assert_eq!(p.maturity.as_deref(), Some("2026-09-26"));
    assert_eq!(p.start_date, None);
}

#[test]
fn build_position_keeps_the_given_id() {
    let id = ulid::Ulid::new();
    let p = build_position(&overlay("T-Bill", "50000", "5.12", ""), None, id).unwrap();
    assert_eq!(p.id, id);
    assert_eq!(p.maturity, None);
    assert_eq!(p.start_date, None);
}

#[test]
fn validation_deposit_date_error_names_start_date() {
    let mut state = overlay("a", "100", "5", "garbage");
    state.kind = Kind::Deposit;
    assert_eq!(validate_overlay(&state).unwrap_err(), "start date must be YYYY-MM-DD");
}

#[test]
fn edit_overlay_on_deposit_restores_start_date() {
    let p = Position {
        id: ulid::Ulid::new(),
        kind: Kind::Deposit,
        name: "Deposit USD".to_string(),
        principal_usd: dec("30000"),
        yield_pct: dec("3.80"),
        maturity: None,
        start_date: Some("2025-08-30".to_string()),
        source_ccy: "USD".to_string(),
        source_amount: None,
        fx_rate: None,
        fx_date: None,
    };
    let state = OverlayState::from_position(0, &p);
    assert_eq!(state.kind, Kind::Deposit);
    assert_eq!(state.maturity, "2025-08-30");
}

#[test]
fn display_principal_grows_deposits_not_tbills() {
    let t = NaiveDate::from_ymd_opt(2026, 8, 30).unwrap();
    let today = Date::from_days_from_ce(t.num_days_from_ce()).unwrap();
    let start = today.minus_days(365).to_text();
    let mut dep = usd_position("dep", "30000", "3.8");
    dep.kind = Kind::Deposit;
    dep.start_date = Some(start.clone());
    let grown = display_principal(&dep, &today);
    assert!(grown.checked_sub(&dec("30000")).unwrap().is_above_zero());
    let mut tb = usd_position("tb", "30000", "3.8");
    tb.start_date = Some(start);
    assert_eq!(display_principal(&tb, &today), dec("30000"));
}

#[test]
fn row_date_shows_start_date_for_deposits_and_maturity_otherwise() {
    let mut dep = usd_position("dep", "30000", "3.8");
    dep.kind = Kind::Deposit;
    dep.start_date = Some("2025-08-30".to_string());
    dep.maturity = Some("2026-12-31".to_string());
    assert_eq!(row_date(&dep), Some("2025-08-30"));
    let mut tb = usd_position("tb", "30000", "3.8");
    tb.start_date = Some("2025-08-30".to_string());
    tb.maturity = Some("2026-12-31".to_string());
    assert_eq!(row_date(&tb), Some("2026-12-31"));
}

#[test]
fn build_position_eur_uses_quote_and_keeps_source_amount() {
    let quote = FxQuote {
        rate: dec("1.085"),
        date: "2026-08-28".to_string(),
    };
    let p = build_position(&eur_overlay("Deposit", "45000", "3.10"), Some(&quote), ulid::Ulid::new()).unwrap();
    assert_eq!(p.principal_usd, dec("48825"));
    assert_eq!(p.source_ccy, "EUR");
    assert_eq!(p.source_amount, Some(dec("45000")));
    assert_eq!(p.fx_rate, Some(dec("1.085")));
    assert_eq!(p.fx_date.as_deref(), Some("2026-08-28"));
}

#[test]
fn build_position_eur_without_quote_is_err() {
    assert_eq!(
        build_position(&eur_overlay("Deposit", "45000", "3.10"), None, ulid::Ulid::new()).unwrap_err(),
        "FX rate unavailable"
    );
}

#[test]
fn try_build_position_reports_overflow() {
    let quote = FxQuote {
        rate: dec("10"),
        date: "2026-08-28".to_string(),
    };
    let state = eur_overlay("Deposit", "79228162514264337593543950335", "3");
    assert!(try_build_position(&state, Some(&quote), ulid::Ulid::new()).is_none());
}

#[test]
fn edit_overlay_on_eur_row_restores_source_amount() {
    let p = Position {
        id: ulid::Ulid::new(),
        kind: Kind::Deposit,
        name: "Deposit EUR".to_string(),
        principal_usd: dec("48825"),
        yield_pct: dec("3.10"),
        maturity: None,
        start_date: None,
        source_ccy: "EUR".to_string(),
        source_amount: Some(dec("45000")),
        fx_rate: Some(dec("1.085")),
        fx_date: Some("2026-08-28".to_string()),
    };
    let state = OverlayState::from_position(2, &p);
    assert_eq!(state.mode, OverlayMode::Edit { index: 2 });
    assert_eq!(state.currency, "EUR");
    assert_eq!(state.amount, "45000");
    assert_eq!(state.yield_pct, "3.10");
}

#[test]
fn keys_navigate_and_open_overlays() {
    let mut app = two_rows();
    assert!(!handle_key(&mut app, key(KeyCode::Char('j'))));
    assert_eq!(app.selected, Some(1));
    assert!(!handle_key(&mut app, key(KeyCode::Down)));
    assert_eq!(app.selected, Some(1));
    assert!(!handle_key(&mut app, key(KeyCode::Char('k'))));
    assert_eq!(app.selected, Some(0));

    assert!(!handle_key(&mut app, key(KeyCode::Char('a'))));
    assert_eq!(app.overlay.as_ref().unwrap().mode, OverlayMode::Add);
    assert!(!handle_key(&mut app, key(KeyCode::Esc)));
    assert!(app.overlay.is_none());

    assert!(!handle_key(&mut app, key(KeyCode::Char('e'))));
    assert_eq!(app.overlay.as_ref().unwrap().mode, OverlayMode::Edit { index: 0 });
    assert!(!handle_key(&mut app, key(KeyCode::Esc)));

    assert!(!handle_key(&mut app, key(KeyCode::Enter)));
    assert_eq!(app.overlay.as_ref().unwrap().mode, OverlayMode::Edit { index: 0 });
    assert!(!handle_key(&mut app, key(KeyCode::Esc)));
}

#[test]
fn edit_key_without_selection_is_ignored() {
    let mut app = empty_app();
    assert!(!handle_key(&mut app, key(KeyCode::Char('e'))));
    assert!(app.overlay.is_none());
}

#[test]
fn q_quits() {
    let mut app = empty_app();
    assert!(handle_key(&mut app, key(KeyCode::Char('q'))));
}

#[test]
fn overlay_add_usd_via_keys_submits() {
    let mut app = empty_app();
    assert!(!handle_key(&mut app, key(KeyCode::Char('a'))));
    type_text(&mut app, "Cash");
    assert!(!handle_key(&mut app, key(KeyCode::Tab)));
    assert!(!handle_key(&mut app, key(KeyCode::Right)));
    assert_eq!(app.overlay.as_ref().unwrap().kind, Kind::Deposit);
    assert!(!handle_key(&mut app, key(KeyCode::Tab)));
    assert!(!handle_key(&mut app, key(KeyCode::Tab)));
    type_text(&mut app, "50000");
    assert!(!handle_key(&mut app, key(KeyCode::Tab)));
    type_text(&mut app, "5.12");
    assert!(!handle_key(&mut app, key(KeyCode::Tab)));
    assert_eq!(app.overlay.as_ref().unwrap().focus, Field::Maturity);
    assert!(!handle_key(&mut app, key(KeyCode::Enter)));

    assert!(app.overlay.is_none());
    assert_eq!(app.book.positions.len(), 1);
    let p = &app.book.positions[0];
    assert_eq!(p.name, "Cash");
    assert_eq!(p.kind, Kind::Deposit);
    assert_eq!(p.principal_usd, dec("50000"));
    assert_eq!(p.yield_pct, dec("5.12"));
    assert_eq!(p.source_ccy, "USD");
    assert_eq!(p.start_date, None);
    assert_eq!(p.maturity, None);
    assert!(app.dirty);
}

#[test]
fn overlay_eur_submit_waits_for_quote() {
    let mut app = empty_app();
    assert!(!handle_key(&mut app, key(KeyCode::Char('a'))));
    type_text(&mut app, "Euro");
    for _ in 0..2 {
        assert!(!handle_key(&mut app, key(KeyCode::Tab)));
    }
    assert!(!handle_key(&mut app, key(KeyCode::Char(' '))));
    assert_eq!(app.overlay.as_ref().unwrap().currency, "EUR");
    assert!(!handle_key(&mut app, key(KeyCode::Tab)));
    type_text(&mut app, "45000");
    assert!(!handle_key(&mut app, key(KeyCode::Tab)));
    type_text(&mut app, "3.10");
    assert!(!handle_key(&mut app, key(KeyCode::Enter)));
    assert!(app.quote_requested);
    assert!(app.overlay.is_some());
    assert!(app.book.positions.is_empty());

    app.submit_with_quote(Err("FX request failed: offline".to_string()));
    assert!(!app.quote_requested);
    assert_eq!(
        app.overlay.as_ref().unwrap().error.as_deref(),
        Some("FX request failed: offline")
    );

    let quote = FxQuote {
        rate: dec("1.085"),
        date: "2026-08-28".to_string(),
    };
    assert!(app.try_submit_with_quote(Ok(quote)));
    assert!(app.overlay.is_none());
    assert_eq!(app.book.positions.len(), 1);
    assert_eq!(app.book.positions[0].principal_usd, dec("48825"));
    assert_eq!(app.book.positions[0].fx_date.as_deref(), Some("2026-08-28"));
    assert!(app.dirty);
}

#[test]
fn overlay_esc_closes_without_saving() {
    let mut app = empty_app();
    assert!(!handle_key(&mut app, key(KeyCode::Char('a'))));
    type_text(&mut app, "Cash");
    assert!(!handle_key(&mut app, key(KeyCode::Esc)));
    assert!(app.overlay.is_none());
    assert!(app.book.positions.is_empty());
    assert!(!app.dirty);
}

#[test]
fn overlay_invalid_submit_stays_open_with_error() {
    let mut app = empty_app();
    assert!(!handle_key(&mut app, key(KeyCode::Char('a'))));
    assert!(!handle_key(&mut app, key(KeyCode::Enter)));
    let ov = app.overlay.as_ref().unwrap();
    assert_eq!(ov.error.as_deref(), Some("name is required"));
    assert!(app.book.positions.is_empty());
}

#[test]
fn overlay_typing_backspace_and_backtab() {
    let mut app = empty_app();
    assert!(!handle_key(&mut app, key(KeyCode::Char('a'))));
    type_text(&mut app, "1234");
    assert!(!handle_key(&mut app, key(KeyCode::Backspace)));
    assert_eq!(app.overlay.as_ref().unwrap().name, "123");
    assert!(!handle_key(&mut app, key(KeyCode::BackTab)));
    assert_eq!(app.overlay.as_ref().unwrap().focus, Field::Maturity);
    assert!(!handle_key(&mut app, key(KeyCode::Tab)));
    assert_eq!(app.overlay.as_ref().unwrap().focus, Field::Name);
}

#[test]
fn overlay_ignores_control_characters() {
    let mut app = empty_app();
    assert!(!handle_key(&mut app, key(KeyCode::Char('a'))));
    assert!(!handle_key(&mut app, KeyEvent::new(KeyCode::Char('x'), true)));
    assert_eq!(app.overlay.as_ref().unwrap().name, "");
}

#[test]
fn overlay_kind_cycles_with_left_right_and_space() {
    let mut app = empty_app();
    assert!(!handle_key(&mut app, key(KeyCode::Char('a'))));
    assert!(!handle_key(&mut app, key(KeyCode::Tab)));
    let ov = app.overlay.as_mut().unwrap();
    assert_eq!(ov.focus, Field::Kind);
    ov.cycle_kind(true);
    assert_eq!(ov.kind, Kind::Deposit);
    ov.cycle_kind(true);
    assert_eq!(ov.kind, Kind::Other);
    ov.cycle_kind(true);
    assert_eq!(ov.kind, Kind::Tbill);
    ov.cycle_kind(false);
    assert_eq!(ov.kind, Kind::Other);
}

#[test]
fn overlay_currency_cycles_with_left_right() {
    let mut app = empty_app();
    assert!(!handle_key(&mut app, key(KeyCode::Char('a'))));
    assert!(!handle_key(&mut app, key(KeyCode::Tab)));
    assert!(!handle_key(&mut app, key(KeyCode::Tab)));
    assert_eq!(app.overlay.as_ref().unwrap().focus, Field::Currency);
    assert!(!handle_key(&mut app, key(KeyCode::Left)));
    assert_eq!(app.overlay.as_ref().unwrap().currency, "EUR");
    assert!(!handle_key(&mut app, key(KeyCode::Right)));
    assert_eq!(app.overlay.as_ref().unwrap().currency, "USD");
    assert!(!handle_key(&mut app, key(KeyCode::Char(' '))));
    assert_eq!(app.overlay.as_ref().unwrap().currency, "EUR");
}

#[test]
fn usd_edit_preserves_id_and_replaces_in_place() {
    let mut app = App::new(Book {
        currency: "USD".to_string(),
        positions: vec![usd_position("a", "1000", "5")],
    });
    let id = app.book.positions[0].id;
    assert!(!handle_key(&mut app, key(KeyCode::Char('e'))));
    app.submit();
    assert!(app.overlay.is_none());
    assert_eq!(app.book.positions.len(), 1);
    assert_eq!(app.book.positions[0].id, id);
    assert_eq!(app.book.positions[0].name, "a");
    assert_eq!(app.book.positions[0].principal_usd, dec("1000"));
    assert!(app.dirty);
}

#[test]
fn focus_goes_round_the_form() {
    let mut app = empty_app();
    assert!(!handle_key(&mut app, key(KeyCode::Char('a'))));
    for _ in 0..6 {
        assert!(!handle_key(&mut app, key(KeyCode::Tab)));
    }
    assert_eq!(app.overlay.as_ref().unwrap().focus, Field::Name);
    assert!(!handle_key(&mut app, key(KeyCode::Tab)));
    assert!(!handle_key(&mut app, key(KeyCode::BackTab)));
    assert_eq!(app.overlay.as_ref().unwrap().focus, Field::Name);
}

#[test]
fn currency_toggle_twice_returns() {
    let mut state = overlay("a", "1", "1", "");
    state.toggle_currency();
    state.toggle_currency();
    assert_eq!(state.currency, "USD");
    state.currency = "GBP".to_string();
    state.toggle_currency();
    state.toggle_currency();
    assert_eq!(state.currency, "USD");
}

#[test]
fn book_changes_mark_dirty_and_selection_stays_in_book() {
    let mut app = two_rows();
    assert!(!handle_key(&mut app, key(KeyCode::Char('j'))));
    assert!(!handle_key(&mut app, key(KeyCode::Char('d'))));
    assert!(!app.dirty);
    assert!(!handle_key(&mut app, key(KeyCode::Char('d'))));
    assert!(app.dirty);
    assert_eq!(app.book.positions.len(), 1);
    assert_eq!(app.selected, Some(0));
}

#[test]
fn validation_refuses_unicode_blank_name() {
    assert_eq!(
        validate_overlay(&overlay("\u{3000}\t\u{a0}", "100", "5", "")).unwrap_err(),
        "name is required"
    );
    assert!(validate_overlay(&overlay("\u{3000}x\u{a0}", "100", "5", "")).is_ok());
}

#[test]
fn decimal_text_places_the_point_by_scale() {
    assert_eq!(dec("-12.34").to_text(), "-12.34");
    assert_eq!(dec("0.005").to_text(), "0.005");
    assert_eq!(dec(".5").to_text(), "0.5");
    assert_eq!(dec("120").to_text(), "120");
    assert_eq!(dec("1.20").to_text(), "1.20");
}

#[test]
fn unchanged_edit_builds_the_same_position() {
    let mut p = usd_position("Bill  Q3", "1234.50", "4.125");
    p.maturity = Some("2026-09-26".to_string());
    let form = OverlayState::from_position(0, &p);
    let built = build_position(&form, None, p.id).unwrap();
    assert_eq!(built, p);
    let mut d = usd_position("Savings", "0.01", "0");
    d.kind = Kind::Deposit;
    d.start_date = Some("2026-01-31".to_string());
    let form = OverlayState::from_position(0, &d);
    assert_eq!(build_position(&form, None, d.id).unwrap(), d);
}

#[test]
fn fmt_money_rounding_to_zero_drops_the_sign() {
    assert_eq!(fmt_money(dec("-0.004")), "$0.00");
    assert_eq!(fmt_pct(dec("-0.0049")), "0.00%");
    assert_eq!(fmt_money(dec("-2.345")), "-$2.35");
}
