use paperclip::action::Action;
use paperclip::app_store::app::{describe, AppStoreApp, DetailHits, ListHits, Step};
use paperclip::app_store::render::{
    banner_text, button_label, detail_page, health_line, is_busy, list_placeholder,
    notes_placeholder, prerelease_line, rows, versions_line, DetailLine, Foot, RowEnd,
};
use paperclip::app_store::source::{
    check_grant, check_offer, failed, fetched, installed, refreshed, rolled_back, CatalogFault,
    InstallFault, SourceError,
};
use paperclip::app_store::wrap::{Wrapped, MAX_LINES};
use paperclip::app_store::{
    AppEntry, AppState, AppStoreScreen, CatalogStatus as StoreCatalog, Health, Inventory, Outcome,
    Request, View,
};
use paperclip::damage::Damage;
use paperclip::home::screen::shipped_screen;
use paperclip::home::shelf::tile_place;
use paperclip::home::{
    BatteryFact, BatteryState, HomeApp, HomeScreen, Manifest, PointerPhase, ShelfEntry, ShelfGlyph,
    SystemFact,
};
use paperclip::settings::app::{reads, Painted, Region};
use paperclip::settings::host::{
    store_apps, store_buckets, store_catalog, store_diagnostics, store_platform, store_revoke,
    store_storage, store_uninstall, InstallFailure, LaunchRecord, StoreEntry, StoredApp,
};
use paperclip::settings::pages::{
    app_detail, app_title, apps_page, catalog_facts, diagnostics_ending, grant_detail, grant_title,
    grants_page, platform_facts, storage_facts, usage_line,
};
use paperclip::settings::screen::PendingKind;
use paperclip::settings::{
    format_bytes, AdminQuery, AdminValue, Capability, ConfirmDialog, HostOpError,
    InstalledAppSummary, PageHits, PlaceholderHost, SettingsApp, SettingsHits, SettingsHost,
    SettingsPage, SettingsScreen,
};

// --- home -------------------------------------------------------------------

fn home_screen() -> HomeScreen {
    HomeScreen {
        entries: vec![
            ShelfEntry::action("Chess", "V0.1.0", ShelfGlyph::Board),
            ShelfEntry::action("App Store", "V0.1.0", ShelfGlyph::Store),
            ShelfEntry::action("Return to stock", "reMarkable", ShelfGlyph::Stock),
        ],
        facts: vec![
            SystemFact::new("Display", "1620 x 2160"),
            SystemFact::new("Renderer", "Software"),
        ],
        pressed: None,
        status: "0.1.0".to_owned(),
    }
}

fn manifest(id: &str, name: &str, version: &str) -> Manifest {
    Manifest {
        id: id.to_owned(),
        name: name.to_owned(),
        version: version.to_owned(),
    }
}

#[test]
fn set_fact_replaces_an_existing_label_rather_than_duplicating_it() {
    let mut screen = home_screen();
    screen.set_fact("Renderer", "GPU");
    assert_eq!(
        screen.facts,
        vec![
            SystemFact::new("Display", "1620 x 2160"),
            SystemFact::new("Renderer", "GPU"),
        ]
    );
}

#[test]
fn set_fact_appends_a_label_that_was_not_already_listed() {
    let mut screen = home_screen();
    screen.set_fact("Battery", "87%");
    assert_eq!(
        screen.facts.last(),
        Some(&SystemFact::new("Battery", "87%"))
    );
}

#[test]
fn entries_take_their_text_from_the_manifest() {
    let manifest = manifest("dev.calum.chess", "Chess", "0.3.1");
    let entry = ShelfEntry::from_manifest(&manifest, ShelfGlyph::Board);
    assert_eq!(entry.label(), "Chess");
    assert_eq!(entry.detail(), "V0.3.1");
    assert_eq!(entry.glyph(), ShelfGlyph::Board);
    assert_eq!(entry.launch(), Some(&manifest.id));
}

#[test]
fn non_app_entries_do_not_need_a_manifest() {
    let entry = ShelfEntry::action("Return to stock", "reMarkable", ShelfGlyph::Stock);
    assert_eq!(entry.label(), "Return to stock");
    assert_eq!(entry.detail(), "reMarkable");
    assert_eq!(entry.launch(), None, "there is nothing to launch it into");
}

#[test]
fn tiles_stand_in_two_columns_in_entry_order() {
    assert_eq!(tile_place(0), (0, 0));
    assert_eq!(tile_place(1), (1, 0));
    assert_eq!(tile_place(2), (0, 1));
}

fn press_screen() -> HomeScreen {
    HomeScreen {
        entries: vec![
            ShelfEntry::from_manifest(
                &manifest("dev.calum.chess", "Chess", "0.1.0"),
                ShelfGlyph::Board,
            ),
            ShelfEntry::action("Return to stock", "reMarkable", ShelfGlyph::Stock),
        ],
        facts: Vec::new(),
        pressed: None,
        status: String::new(),
    }
}

#[test]
fn tapping_an_app_tile_asks_to_launch_it() {
    let mut screen = press_screen();
    assert_eq!(
        screen.press(PointerPhase::Up, Some(0)),
        Action::Launch("dev.calum.chess".to_owned())
    );
}

#[test]
fn tapping_the_stock_tile_asks_to_return_to_stock() {
    let mut screen = press_screen();
    assert_eq!(
        screen.press(PointerPhase::Up, Some(1)),
        Action::ReturnToStock
    );
}

#[test]
fn tapping_off_every_tile_just_redraws() {
    let mut screen = press_screen();
    assert_eq!(screen.press(PointerPhase::Up, None), Action::Redraw);
    assert_eq!(screen.press(PointerPhase::Up, Some(9)), Action::Redraw);
}

#[test]
fn a_press_highlights_the_tile_it_landed_on_until_release() {
    let mut screen = press_screen();
    assert_eq!(screen.press(PointerPhase::Down, Some(0)), Action::Redraw);
    assert_eq!(screen.pressed, Some(0));
    assert_eq!(screen.press(PointerPhase::Moved, Some(0)), Action::Nothing);
    assert_eq!(screen.press(PointerPhase::Moved, None), Action::Redraw);
    assert_eq!(screen.pressed, None);
    assert_eq!(screen.press(PointerPhase::Hover, Some(1)), Action::Nothing);
    assert_eq!(screen.pressed, None);
}

#[test]
fn a_cancelled_contact_clears_the_highlight_without_launching_anything() {
    let mut screen = press_screen();
    screen.pressed = Some(0);
    assert_eq!(
        screen.press(PointerPhase::Cancelled, Some(0)),
        Action::Redraw
    );
    assert_eq!(screen.pressed, None);
}

fn battery(percent: u8, state: BatteryState) -> String {
    let mut app = HomeApp::new(HomeScreen::default());
    app.apply_battery(BatteryFact { percent, state });
    let fact = app
        .screen
        .facts
        .iter()
        .find(|fact| fact.label == "Battery")
        .expect("the fact was filed");
    fact.value.clone()
}

#[test]
fn a_discharging_battery_shows_only_the_percentage() {
    assert_eq!(battery(62, BatteryState::Discharging), "62%");
}

#[test]
fn a_charging_battery_says_so() {
    assert_eq!(battery(40, BatteryState::Charging), "40% (charging)");
    assert_eq!(battery(100, BatteryState::Full), "100% (charging)");
}

#[test]
fn the_battery_is_asked_for_once() {
    let mut app = HomeApp::new(HomeScreen::default());
    assert!(app.ask_battery());
    assert!(!app.ask_battery());
}

#[test]
fn the_shipped_shelf_has_settings_the_store_and_the_way_back() {
    let screen = shipped_screen(
        &manifest("home", "Home", "0.4.0"),
        &manifest("settings", "Settings", "0.4.1"),
        &manifest("store", "App Store", "0.4.2"),
    );
    let labels: Vec<&str> = screen.entries.iter().map(|entry| entry.label()).collect();
    assert_eq!(labels, vec!["Settings", "App Store", "Return to stock"]);
    assert_eq!(screen.facts, vec![SystemFact::new("Home", "V0.4.0")]);
    assert_eq!(screen.status, "V0.4.0");
}

// --- the app store ----------------------------------------------------------

fn empty() -> Inventory {
    Inventory {
        entries: Vec::new(),
        catalog: None,
        stale: false,
    }
}

fn store() -> AppStoreScreen {
    AppStoreScreen::new(empty())
}

const CHESS: &str = "dev.calum.chess";

fn install() -> Request {
    Request::Install {
        app: CHESS.to_owned(),
        version: "1.0.0".to_owned(),
    }
}

fn entry(app: &str, state: AppState) -> AppEntry {
    AppEntry {
        app: app.to_owned(),
        name: "Chess".to_owned(),
        state,
        installed: Some("0.9.0".to_owned()),
        available: Some("1.0.0".to_owned()),
        available_prerelease: None,
        on_disk: vec!["0.8.0".to_owned(), "0.9.0".to_owned()],
        can_roll_back: true,
        health: None,
    }
}

fn stocked(state: AppState) -> AppStoreScreen {
    AppStoreScreen::new(Inventory {
        entries: vec![entry("dev.calum.sudoku", AppState::UpToDate), entry(CHESS, state)],
        catalog: Some(StoreCatalog {
            name: "HOME".to_owned(),
            stale: false,
        }),
        stale: false,
    })
}

#[test]
fn an_empty_store_shows_an_empty_list_and_no_catalog() {
    let screen = store();
    assert!(screen.rows().is_empty());
    assert_eq!(screen.view(), &View::List);
    assert_eq!(screen.catalog_summary(), "NO CATALOG");
    assert!(!screen.is_stale());
    assert!(screen.working().is_none());
    assert!(screen.failure().is_none());
}

#[test]
fn opening_an_app_that_is_not_there_does_nothing() {
    let mut screen = store();
    assert_eq!(screen.open(CHESS), None);
    // The view does not move to a detail page for an app with no row.
    assert_eq!(screen.view(), &View::List);
}

#[test]
fn a_second_operation_cannot_start_while_one_is_in_flight() {
    let mut screen = store();
    assert!(screen.begin(&install()));
    assert_eq!(screen.working().expect("working").app, CHESS);
    assert!(!screen.begin(&install()), "a second press must be refused");
    assert!(
        !screen.begin(&Request::Rollback {
            app: CHESS.to_owned()
        }),
        "a different change must be refused too"
    );

    // Reads are not operations: someone waiting on a download can still
    // refresh the list and open release notes.
    assert!(screen.begin(&Request::Refresh));
    assert!(screen.begin(&Request::Notes {
        app: CHESS.to_owned(),
        version: "1.0.0".to_owned(),
    }));
    assert!(
        screen.working().is_some(),
        "a read must not clear the operation in flight"
    );
}

#[test]
fn progress_is_shown_and_cleared_by_the_outcome() {
    let mut screen = store();
    screen.begin(&install());

    screen.report("DOWNLOADING", Some(42));
    let working = screen.working().expect("working");
    assert_eq!(working.step, "DOWNLOADING");
    assert_eq!(working.percent, Some(42));

    screen.apply(Outcome::Installed {
        app: CHESS.to_owned(),
        version: "1.0.0".to_owned(),
    });
    assert!(screen.working().is_none());
    assert!(screen.failure().is_none());
}

#[test]
fn a_failure_replaces_progress_and_carries_its_advice() {
    let mut screen = store();
    screen.begin(&Request::Rollback {
        app: CHESS.to_owned(),
    });

    screen.apply(Outcome::Failed {
        app: Some(CHESS.to_owned()),
        message: "the catalog is not available".to_owned(),
        advice: "Check the home network.",
    });

    assert!(screen.working().is_none(), "progress must stop");
    let failure = screen.failure().expect("a failure");
    assert_eq!(failure.advice, "Check the home network.");
    assert_eq!(
        banner_text(&screen),
        Some("the catalog is not available \u{2014} Check the home network.".to_owned())
    );

    screen.dismiss_failure();
    assert!(screen.failure().is_none());
    // And the screen accepts work again afterwards.
    assert!(screen.begin(&Request::Refresh));
}

#[test]
fn a_failed_read_does_not_clear_the_operation_in_flight() {
    let error = SourceError::Catalog {
        fault: CatalogFault::Transport,
        message: "no route".to_owned(),
    };
    let mut screen = store();
    screen.begin(&install());
    screen.report("DOWNLOADING", Some(42));

    screen.apply(failed(None, &error));
    assert_eq!(screen.failure().expect("a failure").message, "no route");
    assert_eq!(screen.working().expect("working").percent, Some(42));
    assert!(!screen.begin(&install()), "the first install still runs");

    screen.apply(fetched(CHESS.to_owned(), Err(error)));
    assert!(screen.working().is_some(), "notes are only read");

    let about = |app: &str| Outcome::Failed {
        app: Some(app.to_owned()),
        message: "m".to_owned(),
        advice: "a",
    };
    screen.apply(about("dev.calum.sudoku"));
    assert!(screen.working().is_some(), "that is another app");
    screen.apply(about(CHESS));
    assert!(screen.working().is_none());
    assert!(screen.begin(&install()));
}

#[test]
fn a_row_with_no_action_draws_no_button() {
    let mut screen = stocked(AppState::NothingSelected);
    assert_eq!(button_label(&screen, CHESS), Some("REPAIR"));
    screen.inventory.entries[1].on_disk.clear();
    assert_eq!(screen.primary_action(CHESS), None);
    assert_eq!(button_label(&screen, CHESS), None);
    assert_eq!(rows(&screen)[1].end, RowEnd::Blank);
    screen.open(CHESS);
    let page = detail_page(&screen).expect("chess is listed");
    assert_eq!(
        page.foot,
        Foot::Buttons {
            primary: None,
            rollback: true
        }
    );

    let mut screen = stocked(AppState::Available);
    screen.inventory.entries[1].available = None;
    assert_eq!(button_label(&screen, CHESS), None);
}

#[test]
fn nothing_but_a_fresh_snapshot_changes_the_inventory() {
    let mut app = AppStoreApp::new(stocked(AppState::UpdateAvailable));
    let before = app.screen.inventory().clone();
    assert_eq!(before.entries[1].on_disk, vec!["0.8.0", "0.9.0"]);
    app.press_list(ListHits {
        refresh: false,
        action: Some(1),
        row: None,
    });
    app.progress("DOWNLOADING", Some(1), Some(2));
    app.done(failed(
        Some(CHESS.to_owned()),
        &SourceError::Store {
            message: "m".to_owned(),
        },
    ));
    app.screen.open(CHESS);
    app.press_detail(DetailHits {
        back: true,
        primary: false,
        rollback: false,
    });
    assert_eq!(app.screen.inventory(), &before);
    let fresh = stocked(AppState::UpToDate).inventory;
    app.done(refreshed(Ok(fresh.clone())));
    assert_eq!(app.screen.inventory(), &fresh);
}

#[test]
fn screens_can_be_copied() {
    let screen = stocked(AppState::Failing);
    assert_eq!(screen.clone(), screen);
    let screen = home_screen();
    assert_eq!(screen.clone(), screen);
    let screen = SettingsScreen::preview();
    assert_eq!(screen.clone(), screen);
}

#[test]
fn notes_are_only_shown_for_the_app_being_looked_at() {
    let mut screen = store();
    screen.apply(Outcome::Notes {
        app: CHESS.to_owned(),
        text: "Castling works now.".to_owned(),
    });
    // Still on the list, so nothing is shown.
    assert_eq!(screen.notes(), None);
}

#[test]
fn a_refresh_closes_a_detail_view_whose_app_has_gone() {
    let mut screen = store();
    screen.view = View::Detail(CHESS.to_owned());
    screen.apply(Outcome::Refreshed(Box::new(empty())));
    assert_eq!(screen.view(), &View::List);
    assert_eq!(screen.notes(), None);
}

#[test]
fn going_back_forgets_the_notes_it_was_showing() {
    let mut screen = store();
    screen.view = View::Detail(CHESS.to_owned());
    screen.apply(Outcome::Notes {
        app: CHESS.to_owned(),
        text: "notes".to_owned(),
    });
    assert_eq!(screen.notes(), Some("notes"));
    screen.back();
    assert_eq!(screen.view(), &View::List);
    assert_eq!(screen.notes(), None);
}

#[test]
fn each_state_has_its_button() {
    let app = CHESS.to_owned();
    let version = "1.0.0".to_owned();
    let offered = Some(Request::Install {
        app: app.clone(),
        version,
    });
    assert_eq!(stocked(AppState::Available).primary_action(CHESS), offered);
    assert_eq!(
        stocked(AppState::Available).primary_label(CHESS),
        Some("INSTALL")
    );
    assert_eq!(
        stocked(AppState::UpdateAvailable).primary_action(CHESS),
        offered
    );
    assert_eq!(
        stocked(AppState::UpdateAvailable).primary_label(CHESS),
        Some("UPDATE")
    );
    assert_eq!(
        stocked(AppState::Failing).primary_action(CHESS),
        Some(Request::Rollback { app: app.clone() })
    );
    assert_eq!(
        stocked(AppState::NothingSelected).primary_action(CHESS),
        Some(Request::Install {
            app,
            version: "0.9.0".to_owned()
        }),
        "the newest on disk is selected again"
    );
    assert_eq!(
        stocked(AppState::NothingSelected).primary_label(CHESS),
        Some("REPAIR")
    );
    for state in [
        AppState::Installed,
        AppState::UpToDate,
        AppState::InstalledNotOffered,
    ] {
        assert_eq!(stocked(state).primary_action(CHESS), None);
        assert_eq!(stocked(state).primary_label(CHESS), None);
    }
    assert_eq!(stocked(AppState::Available).primary_action("nobody"), None);
}

#[test]
fn opening_an_app_asks_for_its_notes() {
    let mut screen = stocked(AppState::UpdateAvailable);
    assert_eq!(
        screen.open(CHESS),
        Some(Request::Notes {
            app: CHESS.to_owned(),
            version: "1.0.0".to_owned()
        })
    );
    assert_eq!(screen.view(), &View::Detail(CHESS.to_owned()));
    assert_eq!(screen.detail().map(|entry| entry.app.as_str()), Some(CHESS));
    assert!(screen.can_roll_back(CHESS));
    assert_eq!(screen.name_of(CHESS, "chess"), "Chess");
    assert_eq!(screen.name_of("dev.other", "other"), "other");
    assert_eq!(
        notes_placeholder(&screen, screen.detail().unwrap()),
        Some("FETCHING NOTES\u{2026}")
    );
    screen.apply(Outcome::Notes {
        app: CHESS.to_owned(),
        text: " \n".to_owned(),
    });
    assert_eq!(
        notes_placeholder(&screen, screen.detail().unwrap()),
        Some("THIS RELEASE SHIPPED WITHOUT NOTES.")
    );
    screen.apply(Outcome::Notes {
        app: CHESS.to_owned(),
        text: "Castling works now.".to_owned(),
    });
    assert_eq!(notes_placeholder(&screen, screen.detail().unwrap()), None);
}

#[test]
fn a_row_in_flight_shows_no_button_and_is_the_row_that_changes() {
    let mut app = AppStoreApp::new(stocked(AppState::UpdateAvailable));
    assert_eq!(app.pending_damage, Damage::Full);
    let (action, request) = app.press_list(ListHits {
        refresh: false,
        action: Some(1),
        row: Some(1),
    });
    assert_eq!(action, Action::Redraw);
    assert_eq!(request, Some(install()));
    assert_eq!(app.pending_damage, Damage::Regions(vec![1]));
    assert!(is_busy(&app.screen, CHESS));
    assert_eq!(button_label(&app.screen, CHESS), None);

    app.progress("DOWNLOADING", Some(10), Some(2));
    assert_eq!(app.pending_damage, Damage::Regions(vec![1]));
    app.progress("DOWNLOADING", Some(20), Some(1));
    assert_eq!(app.pending_damage, Damage::Full, "the row is not drawn");
    app.progress("VERIFYING", None, None);
    assert_eq!(app.pending_damage, Damage::Full, "no list is drawn");

    // A second change is refused, and a refresh is not.
    assert_eq!(
        app.press_list(ListHits {
            refresh: false,
            action: Some(1),
            row: None
        }),
        (Action::Nothing, None)
    );
    assert_eq!(
        app.press_list(ListHits {
            refresh: true,
            action: None,
            row: None
        }),
        (Action::Nothing, Some(Request::Refresh))
    );

    app.done(Outcome::Installed {
        app: CHESS.to_owned(),
        version: "1.0.0".to_owned(),
    });
    assert_eq!(button_label(&app.screen, CHESS), Some("UPDATE"));
}

#[test]
fn an_install_that_fails_redraws_instead_of_panicking() {
    let mut app = AppStoreApp::new(stocked(AppState::Available));
    app.press_list(ListHits {
        refresh: false,
        action: Some(1),
        row: None,
    });
    let error = SourceError::Install {
        fault: InstallFault::Digest,
        message: "digest mismatch".to_owned(),
    };
    assert_eq!(
        app.done(failed(Some(CHESS.to_owned()), &error)),
        Action::Redraw
    );
    assert_eq!(
        app.screen.failure().expect("a failure").message,
        "digest mismatch"
    );
    // A banner that goes away moves every row, so starting again claims all.
    app.press_list(ListHits {
        refresh: false,
        action: Some(1),
        row: None,
    });
    assert_eq!(app.pending_damage, Damage::Full);
}

#[test]
fn the_detail_view_installs_rolls_back_and_goes_back() {
    let mut app = AppStoreApp::new(stocked(AppState::UpToDate));
    let (action, request) = app.press_list(ListHits {
        refresh: false,
        action: None,
        row: Some(1),
    });
    assert_eq!(action, Action::Redraw);
    assert!(matches!(request, Some(Request::Notes { .. })));

    let nothing = DetailHits {
        back: false,
        primary: true,
        rollback: false,
    };
    assert_eq!(app.press_detail(nothing), (Action::Nothing, None));
    let rollback = DetailHits {
        back: false,
        primary: false,
        rollback: true,
    };
    assert_eq!(
        app.press_detail(rollback),
        (
            Action::Redraw,
            Some(Request::Rollback {
                app: CHESS.to_owned()
            })
        )
    );
    let back = DetailHits {
        back: true,
        primary: false,
        rollback: false,
    };
    assert_eq!(app.press_detail(back), (Action::Redraw, None));
    assert_eq!(app.screen.view(), &View::List);
    assert_eq!(app.press_detail(rollback), (Action::Nothing, None));
}

#[test]
fn each_step_shows_as_its_word_and_only_a_download_has_a_fraction() {
    assert_eq!(
        describe(Step::Downloading {
            done: 42,
            total: 100
        }),
        ("DOWNLOADING", Some(42))
    );
    assert_eq!(
        describe(Step::Downloading { done: 3, total: 2 }),
        ("DOWNLOADING", Some(100))
    );
    assert_eq!(
        describe(Step::Downloading { done: 5, total: 0 }),
        ("DOWNLOADING", None)
    );
    assert_eq!(
        describe(Step::Downloading {
            done: u64::MAX,
            total: u64::MAX
        }),
        ("DOWNLOADING", Some(1)),
        "the hundredfold is cut off at the largest number"
    );
    assert_eq!(describe(Step::Verifying), ("VERIFYING", None));
    assert_eq!(describe(Step::Extracting), ("EXTRACTING", None));
    assert_eq!(describe(Step::Committing), ("COMMITTING", None));
    assert_eq!(describe(Step::Activating), ("ACTIVATING", None));
}

#[test]
fn the_lines_of_an_entry_say_what_there_is() {
    let mut entry = entry(CHESS, AppState::Failing);
    assert_eq!(versions_line(&entry), "V0.9.0 \u{00B7} OFFERED V1.0.0");
    entry.installed = None;
    entry.available = None;
    assert_eq!(versions_line(&entry), "NOT INSTALLED");
    assert_eq!(prerelease_line(&entry), None);
    entry.available_prerelease = Some("2.0.0-rc.1".to_owned());
    assert_eq!(
        prerelease_line(&entry),
        Some("PRERELEASE 2.0.0-rc.1 \u{00B7} NOT INSTALLED AUTOMATICALLY".to_owned())
    );
    assert_eq!(health_line(&entry), None);
    entry.health = Some(Health {
        started: false,
        attempts: 3,
        last_failure: Some("exit code 1".to_owned()),
    });
    assert_eq!(
        health_line(&entry),
        Some("3 ATTEMPT(S) WITHOUT A START: EXIT CODE 1".to_owned())
    );
    entry.health = Some(Health {
        started: true,
        attempts: 3,
        last_failure: None,
    });
    assert_eq!(health_line(&entry), None);
}

#[test]
fn a_catalog_out_of_reach_is_said_once_at_the_top() {
    let mut screen = stocked(AppState::Installed);
    assert_eq!(screen.catalog_summary(), "HOME");
    assert_eq!(banner_text(&screen), None);
    screen.inventory.stale = true;
    screen.inventory.catalog = Some(StoreCatalog {
        name: "HOME".to_owned(),
        stale: true,
    });
    assert_eq!(screen.catalog_summary(), "HOME \u{00B7} OFFLINE");
    assert_eq!(
        banner_text(&screen),
        Some("THE CATALOG IS NOT REACHABLE. INSTALLED APPS STILL WORK.".to_owned())
    );
}

#[test]
fn an_app_store_without_the_packages_grant_gets_no_installer() {
    let refused = check_grant("dev.calum.app-store", false);
    match &refused {
        Err(error @ SourceError::NotPermitted { app }) => {
            assert_eq!(app, "dev.calum.app-store");
            assert_eq!(
                error.message(),
                "`dev.calum.app-store` has not been granted package management"
            );
            assert!(error.advice().contains("packages"));
        }
        other => panic!("expected a refusal, got {other:?}"),
    }
    assert_eq!(check_grant("dev.calum.app-store", true), Ok(()));
}

#[test]
fn every_failure_says_what_to_do_about_it() {
    let message = || "m".to_owned();
    let catalog = |fault| SourceError::Catalog {
        fault,
        message: message(),
    };
    let install = |fault| SourceError::Install {
        fault,
        message: message(),
    };
    assert!(catalog(CatalogFault::Transport)
        .advice()
        .contains("not reachable"));
    assert!(catalog(CatalogFault::Signature)
        .advice()
        .contains("Do not install it"));
    assert_eq!(
        catalog(CatalogFault::Rollback).advice(),
        catalog(CatalogFault::StalledSerial).advice()
    );
    assert_eq!(
        catalog(CatalogFault::Other).advice(),
        "Re-publish the catalog and refresh."
    );
    assert!(install(InstallFault::Running).advice().contains("Close the app"));
    assert_eq!(
        install(InstallFault::Digest).advice(),
        install(InstallFault::Size).advice()
    );
    assert!(install(InstallFault::Downgrade).advice().contains("roll back"));
    assert!(install(InstallFault::NoFallback)
        .advice()
        .contains("no previous release"));
    assert_eq!(
        install(InstallFault::Io).advice(),
        SourceError::Store { message: message() }.advice()
    );
    assert!(install(InstallFault::Other)
        .advice()
        .contains("Nothing was changed"));
    match check_offer(CHESS, "1.0.0", false) {
        Err(error) => {
            assert_eq!(
                error.message(),
                "the catalog no longer offers `dev.calum.chess` 1.0.0"
            );
            assert_eq!(error.advice(), "Refresh the list and try again.");
        }
        Ok(()) => panic!("it is not offered"),
    }
    assert_eq!(check_offer(CHESS, "1.0.0", true), Ok(()));
}

#[test]
fn the_rows_of_the_list_say_what_each_app_needs() {
    assert_eq!(
        list_placeholder(&store()),
        Some("NOTHING INSTALLED, AND THE CATALOG OFFERS NOTHING.")
    );
    let mut screen = stocked(AppState::Failing);
    assert_eq!(list_placeholder(&screen), None);
    let drawn = rows(&screen);
    assert_eq!(drawn.len(), 2);
    assert_eq!(drawn[0].name, "CHESS");
    assert_eq!(drawn[0].versions, "V0.9.0 \u{00B7} OFFERED V1.0.0");
    assert!(!drawn[0].pressing);
    assert_eq!(drawn[0].end, RowEnd::Blank);
    assert!(drawn[1].pressing, "a failing app asks for attention");
    assert_eq!(
        drawn[1].end,
        RowEnd::Button {
            label: "ROLL BACK",
            filled: true
        }
    );

    screen.begin(&Request::Rollback {
        app: CHESS.to_owned(),
    });
    screen.report("COMMITTING", None);
    let drawn = rows(&screen);
    assert_eq!(drawn[0].end, RowEnd::Blank);
    assert_eq!(
        drawn[1].end,
        RowEnd::Progress {
            step: "COMMITTING".to_owned(),
            percent: None
        }
    );
}

#[test]
fn the_detail_view_reads_from_the_name_to_the_buttons() {
    let mut screen = stocked(AppState::UpdateAvailable);
    assert_eq!(
        detail_page(&screen),
        Err("THAT APP IS NO LONGER HERE."),
        "the list is showing"
    );
    screen.inventory.entries[1].available_prerelease = Some("2.0.0-rc.1".to_owned());
    screen.inventory.entries[1].health = Some(Health {
        started: false,
        attempts: 1,
        last_failure: None,
    });
    screen.open(CHESS);
    let page = detail_page(&screen).expect("chess is listed");
    assert_eq!(
        page.lines,
        vec![
            DetailLine::Name("CHESS".to_owned()),
            DetailLine::Id(CHESS.to_owned()),
            DetailLine::Versions("V0.9.0 \u{00B7} OFFERED V1.0.0".to_owned()),
            DetailLine::Prerelease(
                "PRERELEASE 2.0.0-rc.1 \u{00B7} NOT INSTALLED AUTOMATICALLY".to_owned()
            ),
            DetailLine::Health("1 ATTEMPT(S) WITHOUT A START".to_owned()),
        ]
    );
    assert_eq!(page.notes, Err("FETCHING NOTES\u{2026}"));
    assert_eq!(page.failure, None);
    assert_eq!(
        page.foot,
        Foot::Buttons {
            primary: Some("UPDATE"),
            rollback: true
        }
    );

    screen.apply(Outcome::Notes {
        app: CHESS.to_owned(),
        text: "Castling works now.".to_owned(),
    });
    screen.apply(failed(
        None,
        &SourceError::Store {
            message: "disk full".to_owned(),
        },
    ));
    let page = detail_page(&screen).expect("chess is listed");
    assert_eq!(page.notes, Ok("Castling works now.".to_owned()));
    assert_eq!(
        page.failure,
        Some((
            "DISK FULL".to_owned(),
            "THERE MAY BE NO ROOM LEFT. FREE SOME SPACE AND TRY AGAIN.".to_owned()
        ))
    );

    screen.begin(&install());
    let page = detail_page(&screen).expect("chess is listed");
    assert_eq!(
        page.foot,
        Foot::Progress {
            step: "STARTING".to_owned(),
            percent: None
        }
    );
}

/// Notes laid out in lines of at most `width` characters.
fn wrapped(text: &str, width: usize) -> Vec<String> {
    let mut notes = Wrapped::new();
    for word in text.split_whitespace() {
        let too_wide = notes.candidate(word).chars().count() > width;
        notes.lay_out(word, too_wide);
    }
    notes.finish()
}

#[test]
fn notes_break_between_words_and_are_cut_short() {
    assert_eq!(wrapped("", 10), Vec::<String>::new());
    assert_eq!(
        wrapped("castling  works\nnow, at last", 10),
        vec!["castling", "works now,", "at last"]
    );
    assert_eq!(
        wrapped("a incomprehensibilities b", 5),
        vec!["a", "incomprehensibilities", "b"],
        "a word too wide for any line has a line of its own"
    );
    let long = wrapped("1 2 3 4 5 6 7 8 9 10", 1);
    assert_eq!(long.len(), MAX_LINES + 1);
    assert_eq!(long[7], "8");
    assert_eq!(long[8], "\u{2026}");
    let exact = wrapped("1 2 3 4 5 6 7 8", 1);
    assert_eq!(exact.len(), MAX_LINES);
    assert_eq!(exact[7], "8");
}

#[test]
fn an_answer_is_folded_in_as_what_was_asked_for() {
    let error = || SourceError::NotOffered {
        app: CHESS.to_owned(),
        version: "1.0.0".to_owned(),
    };
    let app = || CHESS.to_owned();
    assert!(matches!(refreshed(Ok(empty())), Outcome::Refreshed(found) if *found == empty()));
    assert!(matches!(
        refreshed(Err(error())),
        Outcome::Failed { app: None, .. }
    ));
    assert!(matches!(
        fetched(app(), Ok("notes".to_owned())),
        Outcome::Notes { text, .. } if text == "notes"
    ));
    assert!(matches!(
        fetched(app(), Err(error())),
        Outcome::NotesFailed { app: about, .. } if about == CHESS
    ));
    assert!(matches!(
        installed(app(), Ok("1.0.0".to_owned())),
        Outcome::Installed { version, .. } if version == "1.0.0"
    ));
    assert!(matches!(
        installed(app(), Err(error())),
        Outcome::Failed { advice: "Refresh the list and try again.", .. }
    ));
    assert!(matches!(
        rolled_back(app(), Ok("0.8.0".to_owned())),
        Outcome::RolledBack { version, .. } if version == "0.8.0"
    ));
    assert!(matches!(
        rolled_back(app(), Err(error())),
        Outcome::Failed { .. }
    ));
}

// --- settings: the host -----------------------------------------------------

#[test]
fn rollback_restores_the_previous_version_and_clears_it() {
    let mut host = PlaceholderHost::new();
    host.rollback(CHESS).expect("chess has a previous release");
    let chess = &host.installed_apps()[0];
    assert_eq!(chess.active_version, "0.1.0");
    assert!(!chess.has_previous_release());
}

#[test]
fn rolling_back_twice_fails_the_second_time() {
    let mut host = PlaceholderHost::new();
    host.rollback(CHESS).expect("first rollback succeeds");
    assert_eq!(host.rollback(CHESS), Err(HostOpError::NoPreviousRelease));
    assert_eq!(host.rollback("nobody"), Err(HostOpError::NotInstalled));
}

#[test]
fn uninstalling_removes_the_app_and_its_grants() {
    let mut host = PlaceholderHost::new();
    host.uninstall(CHESS).expect("chess is installed");
    assert!(host.installed_apps().is_empty());
    assert!(host.grants().is_empty());
    assert_eq!(host.uninstall(CHESS), Err(HostOpError::NotInstalled));
}

#[test]
fn revoking_an_unheld_grant_fails() {
    let mut host = PlaceholderHost::new();
    host.revoke_grant(CHESS, &Capability::named("storage"))
        .expect("chess holds storage");
    assert_eq!(
        host.revoke_grant(CHESS, &Capability::named("storage")),
        Err(HostOpError::GrantNotHeld)
    );
    assert_eq!(host.grants().len(), 1, "the other grant is kept");
    assert_eq!(host.storage_usage().used_bytes(), 21_100_000);
    assert!(host.catalog_status().reachable);
    assert_eq!(host.platform_info().firmware, "3.28.0.172");
    assert_eq!(host.diagnostics().len(), 1);
}

#[test]
fn a_store_reports_what_it_knows_and_says_what_it_does_not() {
    let apps = vec![StoredApp {
        leaf: "chess".to_owned(),
        data_bytes: 10,
    }];
    let buckets = store_buckets(&apps, 1, 2, 3);
    let labels: Vec<&str> = buckets.iter().map(|bucket| bucket.label.as_str()).collect();
    assert_eq!(labels, vec!["DATA / CHESS", "SHARED", "STAGING", "RELEASES"]);
    assert_eq!(buckets[0].bytes, 10);

    let quiet = store_diagnostics(&Vec::new());
    assert_eq!(quiet[0].message, "NO FAILED LAUNCHES RECORDED");
    assert_eq!(quiet[1].when, "NOTE");

    let record = |started, attempts| LaunchRecord {
        leaf: "chess".to_owned(),
        version: "0.2.0".to_owned(),
        started,
        attempts,
        last_failure: Some("exit code 1".to_owned()),
    };
    let entries = store_diagnostics(&vec![record(true, 4), record(false, 0), record(false, 2)]);
    assert_eq!(entries.len(), 2);
    assert_eq!(
        entries[0].message,
        "CHESS V0.2.0 HAS NOT STARTED AFTER 2 ATTEMPT(S): EXIT CODE 1"
    );
    assert!(!store_catalog().reachable);
    assert_eq!(store_platform("0.1.0").firmware, "NOT VERIFIED");
}

#[test]
fn a_store_lists_the_apps_with_a_release_selected() {
    let entry = |id: &str, installed: Option<&str>| StoreEntry {
        id: id.to_owned(),
        name: "Chess".to_owned(),
        installed: installed.map(str::to_owned),
        fallback: Some("0.1.0".to_owned()),
        data_bytes: 7,
    };
    let apps = store_apps(&vec![entry("a", None), entry("b", Some("0.2.0"))]);
    assert_eq!(apps.len(), 1);
    assert_eq!(apps[0].id, "b");
    assert_eq!(apps[0].active_version, "0.2.0");
    assert_eq!(apps[0].previous_version, Some("0.1.0".to_owned()));
    assert_eq!(apps[0].data_bytes, 7);

    let storage = store_storage(&Vec::new(), 1, 2, 3, None);
    assert_eq!(storage.free_bytes, 0, "free space nobody could read");
    assert_eq!(storage.used_bytes(), 6);
    assert_eq!(store_storage(&Vec::new(), 1, 2, 3, Some(9)).free_bytes, 9);
}

#[test]
fn uninstall_and_revoke_report_not_supported_rather_than_pretending_to_act() {
    assert!(matches!(
        store_uninstall(),
        Err(HostOpError::NotSupported { .. })
    ));
    assert!(matches!(
        store_revoke(),
        Err(HostOpError::NotSupported { .. })
    ));
}

#[test]
fn rollback_with_no_previous_release_reports_it_rather_than_guessing() {
    assert_eq!(
        HostOpError::from_install(InstallFailure::NoFallback),
        HostOpError::NoPreviousRelease
    );
}

#[test]
fn an_install_failure_is_the_host_failure_it_means() {
    assert_eq!(
        HostOpError::from_install(InstallFailure::NoFallback),
        HostOpError::NoPreviousRelease
    );
    assert_eq!(
        HostOpError::from_install(InstallFailure::NothingSelected),
        HostOpError::NotInstalled
    );
    assert_eq!(
        HostOpError::from_install(InstallFailure::Other("disk".to_owned())),
        HostOpError::Failed("disk".to_owned())
    );
}

// --- settings: the screen ---------------------------------------------------

fn lines(screen: &SettingsScreen) -> Vec<String> {
    screen
        .pending
        .as_ref()
        .expect("a dialog is open")
        .dialog
        .lines
        .clone()
}

fn settings_tap() -> SettingsHits {
    SettingsHits {
        tap: true,
        dialog: false,
        cancel: false,
        confirm: false,
        return_to_stock: false,
        tab: None,
        page: PageHits::ReadOnly,
    }
}

#[test]
fn attempting_rollback_with_no_previous_release_opens_nothing() {
    let mut screen = SettingsScreen::preview();
    screen.apps[0].previous_version = None;

    screen.begin_rollback(0);
    assert!(
        screen.pending.is_none(),
        "nothing to roll back to should not open a dialog"
    );
}

#[test]
fn rollback_with_a_previous_release_opens_a_dialog_naming_it() {
    let mut screen = SettingsScreen::preview();
    screen.begin_rollback(0);
    assert!(lines(&screen).iter().any(|line| line.contains("0.1.0")));
    assert_eq!(
        screen.pending.as_ref().unwrap().dialog.title,
        "ROLL BACK CHESS"
    );
}

#[test]
fn uninstalling_an_app_with_data_present_warns_about_losing_it() {
    let mut screen = SettingsScreen::preview();
    assert!(
        screen.apps[0].data_bytes > 0,
        "the fixture should have data to lose"
    );

    screen.begin_uninstall(0);
    let lines = lines(&screen);
    assert!(lines.iter().any(|line| line.contains("MB")));
    assert!(
        lines.iter().any(|line| line.contains("CANNOT BE UNDONE")),
        "a destructive action must say it cannot be undone"
    );
    assert_eq!(lines[0], "2.4 MB OF DATA WILL BE DELETED.");
}

#[test]
fn uninstalling_an_app_with_no_data_does_not_claim_data_will_be_lost() {
    let mut screen = SettingsScreen::preview();
    screen.apps[0].data_bytes = 0;

    screen.begin_uninstall(0);
    assert!(lines(&screen).iter().all(|line| !line.contains("MB")));
}

#[test]
fn revoking_a_grant_currently_in_use_warns_about_interrupting_it() {
    let mut screen = SettingsScreen::preview();
    assert!(
        screen.grants[0].in_use,
        "the fixture's first grant should be in use"
    );

    screen.begin_revoke(0);
    assert!(lines(&screen).iter().any(|line| line.contains("RIGHT NOW")));
}

#[test]
fn revoking_a_grant_not_in_use_does_not_warn_about_interrupting_it() {
    let mut screen = SettingsScreen::preview();
    assert!(
        !screen.grants[1].in_use,
        "the fixture's second grant should be idle"
    );

    screen.begin_revoke(1);
    assert!(lines(&screen)
        .iter()
        .all(|line| !line.contains("RIGHT NOW")));
    assert_eq!(lines(&screen), vec!["CHESS WILL LOSE SHARING ACCESS."]);
}

#[test]
fn cancelling_a_pending_action_asks_the_host_nothing() {
    let mut screen = SettingsScreen::preview();
    screen.begin_uninstall(0);
    screen.cancel();
    assert!(screen.pending.is_none());
    assert_eq!(screen.confirm(), None, "nothing pending, nothing to ask");
}

#[test]
fn confirming_a_destructive_action_closes_the_dialog_and_names_the_write() {
    let mut screen = SettingsScreen::preview();
    screen.begin_uninstall(0);
    let kind = screen.confirm();
    assert!(screen.pending.is_none());
    assert_eq!(kind, Some(PendingKind::Uninstall(CHESS.to_owned())));
}

#[test]
fn applying_an_admin_value_updates_the_matching_field_and_nothing_else() {
    let mut screen = SettingsScreen::loading("0.1.0");
    assert!(screen.apps.is_empty());

    screen.apply(AdminValue::InstalledApps(vec![InstalledAppSummary {
        id: CHESS.to_owned(),
        name: "Chess".to_owned(),
        active_version: "0.2.0".to_owned(),
        previous_version: None,
        data_bytes: 0,
    }]));
    assert_eq!(screen.apps.len(), 1);
    assert!(
        screen.grants.is_empty(),
        "an InstalledApps answer must not touch grants"
    );
}

#[test]
fn a_write_s_own_result_is_not_applied_to_the_screen() {
    let mut screen = SettingsScreen::preview();
    screen.apply(AdminValue::Uninstall(Err(HostOpError::NotInstalled)));
    assert_eq!(
        screen,
        SettingsScreen::preview(),
        "a write's Result carries no display data of its own"
    );
}

#[test]
fn a_press_on_a_tab_switches_the_page_unless_a_dialog_is_open() {
    let mut screen = SettingsScreen::preview();
    screen.press_tab(Some(SettingsPage::Storage));
    assert_eq!(screen.page, SettingsPage::Storage);

    screen.begin_uninstall(0);
    screen.press_tab(Some(SettingsPage::Apps));
    assert_eq!(
        screen.page,
        SettingsPage::Storage,
        "a tab press must not reach through a dialog"
    );
}

#[test]
fn the_footer_return_action_disappears_while_confirming() {
    let mut screen = SettingsScreen::preview();
    assert!(screen.offers_return());
    assert!(!screen.is_confirming());

    screen.begin_uninstall(0);
    assert!(!screen.offers_return());
    assert!(screen.is_confirming());
}

#[test]
fn a_dialog_absorbs_every_press() {
    let mut screen = SettingsScreen::preview();
    let uninstall = SettingsHits {
        page: PageHits::Apps {
            uninstall: Some(0),
            rollback: Some(0),
        },
        ..settings_tap()
    };
    assert_eq!(screen.press(uninstall).action, Action::Redraw);
    assert!(screen.is_confirming());

    let scrim = SettingsHits {
        dialog: true,
        return_to_stock: true,
        tab: Some(SettingsPage::Grants),
        ..uninstall
    };
    assert_eq!(screen.press(scrim).action, Action::Nothing);
    assert_eq!(screen.page, SettingsPage::Apps);
    assert!(screen.is_confirming());

    let confirm = SettingsHits {
        dialog: true,
        confirm: true,
        ..settings_tap()
    };
    let press = screen.press(confirm);
    assert_eq!(press.action, Action::Redraw);
    assert_eq!(
        press.admin.map(PendingKind::into_query),
        Some(AdminQuery::Uninstall {
            app: CHESS.to_owned()
        })
    );
    assert!(!screen.is_confirming());
}

#[test]
fn a_tap_on_nothing_asks_for_nothing() {
    let mut app = SettingsApp::new("0.1.0");
    assert_eq!(app.press(settings_tap()), (Action::Nothing, None));
    let back = SettingsHits {
        return_to_stock: true,
        ..settings_tap()
    };
    assert_eq!(app.press(back), (Action::ReturnToStock, None));
    let hover = SettingsHits { tap: false, ..back };
    assert_eq!(app.press(hover), (Action::Nothing, None));
}

#[test]
fn a_tab_press_before_any_draw_still_switches_the_page() {
    let mut app = SettingsApp::new("0.1.0");
    let storage = SettingsHits {
        tab: Some(SettingsPage::Storage),
        ..settings_tap()
    };
    assert_eq!(app.press(storage), (Action::Redraw, None));
    assert_eq!(app.screen().page, SettingsPage::Storage);
}

#[test]
fn an_installed_apps_answer_asks_for_a_redraw() {
    let mut app = SettingsApp::new("0.1.0");
    let answered = app.answered(AdminValue::InstalledApps(Vec::new()));
    assert_eq!(answered.action, Action::Redraw);
    assert!(!answered.reread);
    assert_eq!(answered.refused, None);

    let answered = app.answered(AdminValue::Rollback(Err(HostOpError::NoPreviousRelease)));
    assert!(answered.reread, "a write calls for reading again");
    assert_eq!(answered.refused, Some(HostOpError::NoPreviousRelease));
    assert_eq!(
        app.answered(AdminValue::RevokeGrant(Ok(()))).refused,
        None
    );
}

#[test]
fn the_launch_reads_go_out_once_and_in_order() {
    let mut app = SettingsApp::new("0.1.0");
    assert!(app.drawn(6));
    assert!(!app.drawn(6));
    assert_eq!(
        reads(),
        vec![
            AdminQuery::InstalledApps,
            AdminQuery::StorageUsage,
            AdminQuery::Grants,
            AdminQuery::CatalogStatus,
            AdminQuery::PlatformInfo,
            AdminQuery::Diagnostics,
        ]
    );
}

#[test]
fn app_the_first_frame_claims_the_whole_viewport() {
    let mut app = SettingsApp::new("0.1.0");
    app.drawn(6);
    assert_eq!(app.damage, Damage::Full);
}

#[test]
fn a_frame_that_changed_nothing_claims_nothing() {
    let mut app = SettingsApp::new("0.1.0");
    app.drawn(6);
    app.drawn(6);
    assert_eq!(app.damage, Damage::Regions(Vec::new()));
}

#[test]
fn switching_pages_claims_the_tabs_that_moved_and_the_page_body_only() {
    let mut app = SettingsApp::new("0.1.0");
    app.drawn(6);
    app.screen.press_tab(Some(SettingsPage::Storage));
    app.drawn(6);
    assert_eq!(
        app.damage,
        Damage::Regions(vec![
            Region::Tab(SettingsPage::Apps),
            Region::Tab(SettingsPage::Storage),
            Region::BelowTabs,
        ])
    );
    let painted = |page| Painted {
        page,
        confirming: false,
    };
    assert_eq!(
        SettingsApp::damage_between(
            Some(painted(SettingsPage::Apps)),
            painted(SettingsPage::Diagnostics),
            5
        ),
        Damage::Full,
        "a tab that was not drawn"
    );
}

#[test]
fn opening_and_closing_a_confirmation_claims_the_whole_viewport() {
    let mut app = SettingsApp::new("0.1.0");
    app.screen = SettingsScreen::preview();
    app.drawn(6);
    app.screen.press_apps(Some(0), None);
    app.drawn(6);
    assert_eq!(app.damage, Damage::Full);

    app.screen.cancel();
    app.drawn(6);
    assert_eq!(app.damage, Damage::Full);

    app.drawn(6);
    assert_eq!(app.damage, Damage::Regions(Vec::new()));
    assert_eq!(app.resumed(), Action::Redraw);
    app.drawn(6);
    assert_eq!(app.damage, Damage::Full, "a resumed app starts over");
}

#[test]
fn every_tab_has_its_page() {
    for (index, page) in SettingsPage::ALL.into_iter().enumerate() {
        assert_eq!(page.tab_index(), index);
        assert_eq!(SettingsPage::at_tab(index), Some(page));
    }
    assert_eq!(SettingsPage::at_tab(6), None);
    assert_eq!(SettingsPage::Diagnostics.tab_label(), "LOGS");
    assert_eq!(SettingsPage::Diagnostics.heading(), "DIAGNOSTICS");
}

// --- settings: the pages ----------------------------------------------------

#[test]
fn format_bytes_reports_one_decimal_megabyte() {
    assert_eq!(format_bytes(41_300_000), "41.3 MB");
    assert_eq!(format_bytes(0), "0.0 MB");
}

#[test]
fn byte_counts_round_as_double_precision_does() {
    let mut counts: Vec<u64> = vec![
        1,
        49_999,
        50_000,
        50_001,
        150_000,
        250_000,
        350_000,
        750_000,
        999_949_999,
        u64::MAX,
        u64::MAX - 1,
        1 << 53,
        (1 << 53) + 1,
        (1 << 63) + 1_025,
        9_007_199_254_740_993,
    ];
    let mut state: u64 = 1;
    for _ in 0..4_000 {
        state = state
            .wrapping_mul(6_364_136_223_846_793_005)
            .wrapping_add(1_442_695_040_888_963_407);
        counts.push(state >> (state % 64));
        // The counts half way between two tenths are where rounding shows.
        counts.push((state >> 30) % 1_000_000_000 * 100_000 + 50_000);
    }
    for bytes in counts {
        assert_eq!(
            format_bytes(bytes),
            format!("{:.1} MB", bytes as f64 / 1_000_000.0),
            "{bytes} bytes"
        );
    }
}

#[test]
fn the_pages_say_what_the_host_reported() {
    let screen = SettingsScreen::preview();
    assert_eq!(app_title(&screen.apps[0]), "CHESS");
    assert_eq!(
        app_detail(&screen.apps[0]),
        "ACTIVE V0.2.0 \u{00B7} PREVIOUS V0.1.0"
    );
    assert_eq!(grant_title(&screen.grants[0]), "CHESS \u{00B7} STORAGE");
    assert_eq!(grant_detail(&screen.grants[0]), "IN USE NOW");
    assert_eq!(
        grant_detail(&screen.grants[1]),
        "GRANTED, NOT CURRENTLY IN USE"
    );
    assert_eq!(usage_line(&screen.storage), "21.1 MB USED OF 62.4 MB");
    let facts = storage_facts(&screen.storage);
    assert_eq!(facts.len(), 5);
    assert_eq!(facts[3].label, "RELEASES");
    assert_eq!(facts[3].value, "18.7 MB");
    assert_eq!(facts[4].label, "FREE");
    assert_eq!(catalog_facts(&screen.catalog)[2].value, "YES");
    assert_eq!(platform_facts(&screen.platform)[0].value, "V0.1.0");

    let loading = SettingsScreen::loading("0.1.0");
    assert_eq!(catalog_facts(&loading.catalog)[1].value, "NEVER");
    assert_eq!(catalog_facts(&loading.catalog)[2].value, "NO");
    let mut alone = SettingsScreen::preview();
    alone.apps[0].previous_version = None;
    assert_eq!(
        app_detail(&alone.apps[0]),
        "ACTIVE V0.2.0 \u{00B7} NO PREVIOUS RELEASE"
    );
}

#[test]
fn a_listing_page_has_a_row_for_each_or_says_there_is_none() {
    let screen = SettingsScreen::preview();
    let rows = apps_page(&screen.apps).expect("there is an app");
    assert_eq!(rows.len(), 1);
    assert_eq!(rows[0].title, "CHESS");
    assert_eq!(rows[0].buttons, vec!["UNINSTALL", "ROLLBACK"]);
    let rows = grants_page(&screen.grants).expect("there are grants");
    assert_eq!(rows.len(), 2);
    assert_eq!(rows[1].detail, "GRANTED, NOT CURRENTLY IN USE");
    assert_eq!(rows[1].buttons, vec!["REVOKE"]);
    assert_eq!(
        diagnostics_ending(&screen.diagnostics),
        "FULL LOGS: /HOME/ROOT/PAPERCLIP/LOGS"
    );

    let mut alone = SettingsScreen::preview();
    alone.apps[0].previous_version = None;
    let rows = apps_page(&alone.apps).expect("there is an app");
    assert_eq!(rows[0].buttons, vec!["UNINSTALL"]);

    let loading = SettingsScreen::loading("0.1.0");
    assert_eq!(
        apps_page(&loading.apps),
        Err("NOTHING INSTALLED FROM THE CATALOG YET.")
    );
    assert_eq!(
        grants_page(&loading.grants),
        Err("NO CAPABILITIES ARE GRANTED.")
    );
    assert_eq!(
        diagnostics_ending(&loading.diagnostics),
        "NO ERRORS RECORDED."
    );
}

fn app(previous: Option<&str>) -> InstalledAppSummary {
    InstalledAppSummary {
        id: CHESS.to_owned(),
        name: "Chess".to_owned(),
        active_version: "0.2.0".to_owned(),
        previous_version: previous.map(str::to_owned),
        data_bytes: 2_400_000,
    }
}

#[test]
fn a_row_with_a_previous_release_gets_a_rollback_button() {
    let rows = apps_page(&vec![app(Some("0.1.0"))]).expect("a row");
    assert!(rows[0].buttons.contains(&"ROLLBACK"));
}

#[test]
fn a_row_with_no_previous_release_has_no_rollback_button() {
    let rows = apps_page(&vec![app(None)]).expect("a row");
    assert!(!rows[0].buttons.contains(&"ROLLBACK"));
}

#[test]
fn grants_hand_back_one_revoke_button_per_row() {
    let screen = SettingsScreen::preview();
    let rows = grants_page(&screen.grants).expect("there are grants");
    assert_eq!(rows.len(), 2);
    for row in &rows {
        assert_eq!(row.buttons, vec!["REVOKE"]);
    }
}

#[test]
fn a_dialog_says_what_it_was_given() {
    let dialog = ConfirmDialog::new("TITLE".to_owned(), vec!["LINE".to_owned()], "GO");
    assert_eq!(dialog.title, "TITLE");
    assert_eq!(dialog.lines, vec!["LINE"]);
    assert_eq!(dialog.confirm_label, "GO");
}
