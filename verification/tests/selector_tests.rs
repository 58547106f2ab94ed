use galaxy_tui::{App, ExplorerInfo, PlanetEntry, PlanetInfo, Status};

fn planets(n: u32) -> Vec<PlanetEntry> {
    (0..n)
        .map(|id| PlanetEntry {
            id,
            info: PlanetInfo {
                rocket: format!("R{}", id),
                energy_cells: 5,
                charged_cells: 2,
                status: Status::Running,
            },
        })
        .collect()
}

fn session(n: u32) -> App {
    App::new(planets(n), Vec::<ExplorerInfo>::new(), 10, 0)
}

#[test]
fn increment_from_none_selects_first() {
    let mut app = session(3);
    assert_eq!(app.planet_id_selector, None);
    app.increment_id_selector();
    assert_eq!(app.planet_id_selector, Some(0));
}

#[test]
fn decrement_from_none_selects_last() {
    let mut app = session(3);
    app.decrement_id_selector();
    assert_eq!(app.planet_id_selector, Some(2));
}

#[test]
fn increment_wraps_at_end() {
    let mut app = session(3);
    app.increment_id_selector();
    app.increment_id_selector();
    app.increment_id_selector();
    assert_eq!(app.planet_id_selector, Some(2));
    app.increment_id_selector();
    assert_eq!(app.planet_id_selector, Some(0));
}

#[test]
fn decrement_wraps_at_start() {
    let mut app = session(3);
    app.increment_id_selector();
    assert_eq!(app.planet_id_selector, Some(0));
    app.decrement_id_selector();
    assert_eq!(app.planet_id_selector, Some(2));
}

#[test]
fn increment_n_times_returns_to_start() {
    for n in 1..6u32 {
        let mut app = session(n);
        app.increment_id_selector();
        app.increment_id_selector();
        let start = app.planet_id_selector;
        for _ in 0..n {
            app.increment_id_selector();
        }
        assert_eq!(app.planet_id_selector, start);
    }
}

#[test]
fn decrement_n_times_returns_to_start() {
    for n in 1..6u32 {
        let mut app = session(n);
        app.increment_id_selector();
        let start = app.planet_id_selector;
        for _ in 0..n {
            app.decrement_id_selector();
        }
        assert_eq!(app.planet_id_selector, start);
    }
}

#[test]
fn decrement_undoes_increment() {
    let mut app = session(4);
    app.increment_id_selector();
    app.increment_id_selector();
    assert_eq!(app.planet_id_selector, Some(1));
    app.increment_id_selector();
    app.decrement_id_selector();
    assert_eq!(app.planet_id_selector, Some(1));
    app.decrement_id_selector();
    app.increment_id_selector();
    assert_eq!(app.planet_id_selector, Some(1));
}

#[test]
fn empty_list_navigation_is_noop() {
    let mut app = session(0);
    app.increment_id_selector();
    assert_eq!(app.planet_id_selector, None);
    app.decrement_id_selector();
    assert_eq!(app.planet_id_selector, None);
}
