use galaxy_tui::{
    handle_game_state, resolve_init_path, Action, App, AppError, CollabCall, Command,
    ExplorerInfo, GameState, LogBuffer, PlanetEntry, PlanetInfo, Status, FRAME_RATE_MS,
    LOG_CAPACITY, PROBABILITY_MAX, TICK_RATE_MS,
};

fn session(probability: u32) -> App {
    App::new(Vec::<PlanetEntry>::new(), Vec::<ExplorerInfo>::new(), probability, 0)
}

#[test]
fn new_session_waits_with_fresh_timestamps() {
    let app = App::new(
        vec![PlanetEntry {
            id: 0,
            info: PlanetInfo {
                rocket: String::from("R0"),
                energy_cells: 5,
                charged_cells: 0,
                status: Status::Running,
            },
        }],
        Vec::new(),
        25,
        1234,
    );
    assert_eq!(app.get_game_state(), GameState::WaitingStart);
    assert!(!app.exit);
    assert_eq!(app.tick_rate, TICK_RATE_MS);
    assert_eq!(app.frame_rate, FRAME_RATE_MS);
    assert_eq!(app.last_tick, 1234);
    assert_eq!(app.last_frame, 1234);
    assert_eq!(app.probability_sunray, 25);
    assert_eq!(app.planet_id_selector, None);
    assert!(!app.show_log_overlay);
    assert_eq!(app.planets_info.len(), 1);
    assert_eq!(app.log_entries.len(), 0);
}

#[test]
fn new_session_clamps_probability() {
    let app = session(PROBABILITY_MAX + 50);
    assert_eq!(app.probability_sunray, PROBABILITY_MAX);
}

#[test]
fn increase_then_decrease_probability_round_trip() {
    let mut app = session(10);
    let act = handle_game_state(&mut app, Some(Command::IncreaseProbability));
    assert_eq!(app.probability_sunray, 11);
    assert_eq!(act, Some(Action::SyncProbability(11)));
    let act = handle_game_state(&mut app, Some(Command::DecreaseProbability));
    assert_eq!(app.probability_sunray, 10);
    assert_eq!(act, Some(Action::SyncProbability(10)));
}

#[test]
fn probability_saturates_at_zero() {
    let mut app = session(0);
    app.set_sunray_decrement();
    assert_eq!(app.probability_sunray, 0);
}

#[test]
fn probability_saturates_at_maximum() {
    let mut app = session(PROBABILITY_MAX);
    app.set_sunray_increment();
    assert_eq!(app.probability_sunray, PROBABILITY_MAX);
}

#[test]
fn missing_init_path_is_a_config_error() {
    assert_eq!(resolve_init_path(None), Err(AppError::Config));
}

#[test]
fn present_init_path_is_returned() {
    assert_eq!(
        resolve_init_path(Some(String::from("galaxy.txt"))),
        Ok(String::from("galaxy.txt"))
    );
}

#[test]
fn log_buffer_appends_until_full_then_drops_oldest() {
    let mut buf = LogBuffer::new(2);
    buf.push(String::from("a"));
    buf.push(String::from("b"));
    assert_eq!(buf.entries, vec![String::from("a"), String::from("b")]);
    buf.push(String::from("c"));
    assert_eq!(buf.entries, vec![String::from("b"), String::from("c")]);
    assert_eq!(buf.capacity, 2);
}

#[test]
fn session_log_keeps_the_rest_of_the_session() {
    let mut app = session(10);
    app.set_game_state(GameState::Running);
    app.push_log(String::from("hazard on planet 3"));
    assert_eq!(app.log_entries.len(), 1);
    assert_eq!(app.log_entries.entries[0], "hazard on planet 3");
    assert_eq!(app.log_entries.capacity, LOG_CAPACITY);
    assert_eq!(app.get_game_state(), GameState::Running);
    assert_eq!(app.probability_sunray, 10);
}

#[test]
fn sort_rows_orders_by_planet_id_and_keeps_rows() {
    let row = |id: u32, charged: usize| galaxy_tui::PlanetEntry {
        id,
        info: PlanetInfo {
            rocket: format!("R{}", id),
            energy_cells: 5,
            charged_cells: charged,
            status: Status::Running,
        },
    };
    let sorted = galaxy_tui::sort_rows_by_id(vec![row(4, 1), row(1, 2), row(4, 3), row(0, 4)]);
    let ids: Vec<u32> = sorted.iter().map(|r| r.id).collect();
    assert_eq!(ids, vec![0, 1, 4, 4]);
    // Both rows with the duplicate id survive, each with its own payload.
    let mut charges: Vec<usize> = sorted
        .iter()
        .filter(|r| r.id == 4)
        .map(|r| r.info.charged_cells)
        .collect();
    charges.sort();
    assert_eq!(charges, vec![1, 3]);
    assert_eq!(sorted.len(), 4);
    assert!(galaxy_tui::sort_rows_by_id(Vec::new()).is_empty());
}

#[test]
fn each_error_has_its_message() {
    assert_eq!(AppError::Config.message(), "Set INPUT_FILE in .env or env vars");
    assert_eq!(AppError::Input.message(), "Handle events error");
    assert_eq!(
        AppError::Collaborator(CollabCall::Init).message(),
        "Failed to initialize galaxy"
    );
    assert_eq!(
        AppError::Collaborator(CollabCall::Start).message(),
        "Failed to start simulation"
    );
    assert_eq!(
        AppError::Collaborator(CollabCall::Drain).message(),
        "Failed to handle game messages"
    );
    assert_eq!(
        AppError::Collaborator(CollabCall::Event).message(),
        "Failed to send sunray or asteroid"
    );
}

#[test]
fn log_window_shows_the_newest_entries() {
    let mut buf = LogBuffer::new(10);
    for i in 0..6 {
        buf.push(format!("entry {}", i));
    }
    // Overlay open: everything is shown.
    assert_eq!(buf.window_start(3, true), 0);
    // Overlay closed: only the newest three entries.
    assert_eq!(buf.window_start(3, false), 3);
    // A window larger than the log shows everything.
    assert_eq!(buf.window_start(10, false), 0);
}

#[test]
fn empty_cells_counts_the_uncharged() {
    let info = PlanetInfo {
        rocket: String::from("R1"),
        energy_cells: 5,
        charged_cells: 2,
        status: Status::Running,
    };
    assert_eq!(info.empty_cells(), 3);
}
