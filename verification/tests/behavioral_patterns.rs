use patterns::behavioral::chain_of_resposibility::DeliveryProcess;
use patterns::behavioral::chain_of_resposibility::ManufacturingLine;
use patterns::behavioral::chain_of_resposibility::PackagingProcess;
use patterns::behavioral::chain_of_resposibility::QAProcess;
use patterns::behavioral::chain_of_resposibility::Shirt;
use patterns::behavioral::command::AccountHandler;
use patterns::behavioral::command::CallCenter;
use patterns::behavioral::command::Handler;
use patterns::behavioral::command::Input;
use patterns::behavioral::command::TransactionHandler;
use patterns::behavioral::mediator::Anon;
use patterns::behavioral::mediator::Forum;
use patterns::behavioral::memento::Editor;
use patterns::behavioral::memento::Snapshot;
use patterns::behavioral::memento::SnapshotManager;
use patterns::behavioral::state::MusicPlayer;
use patterns::behavioral::state::PlayingState;
use patterns::behavioral::state::State;
use patterns::behavioral::state::Player;
use patterns::behavioral::state::PlayerMode;
use patterns::behavioral::state::Song;
use patterns::behavioral::strategy::Exporter;
use patterns::behavioral::strategy::KeJSONGan;
use patterns::behavioral::strategy::KeTOMLGan;
use patterns::behavioral::strategy::KeYAMLGan;
use patterns::behavioral::strategy::User;
use patterns::behavioral::strategy::export_data;
use patterns::behavioral::strategy::is_user_exist;
use patterns::behavioral::template::ConfigurationManager;
use patterns::behavioral::template::JSONConfigurationManager;
use patterns::behavioral::template::YAMLConfigurationManager;
use patterns::behavioral::template::parse_config;
use patterns::behavioral::visitor::JSONExporter;
use patterns::behavioral::visitor::Square;

#[test]
fn chain_reports_every_station_in_order() {
    let delivery: DeliveryProcess = DeliveryProcess::new();
    let mut packaging: PackagingProcess<DeliveryProcess> = PackagingProcess::new();
    packaging.set_next(delivery);
    let mut qa_process: QAProcess<PackagingProcess<DeliveryProcess>> = QAProcess::new();
    qa_process.set_next(packaging);
    let log = qa_process.handle(Shirt { color: (255, 255, 255), size: "XL".to_string() });
    assert_eq!(
        log,
        vec![
            "Checking shirt quality".to_string(),
            "Packaging shirt nicely...".to_string(),
            "Delivering packaged shirt to warehouse...".to_string(),
        ]
    );
}

#[test]
fn chain_station_without_next_reports_only_itself() {
    let qa_process: QAProcess = QAProcess::new();
    let log = qa_process.handle(Shirt { color: (0, 0, 0), size: "M".to_string() });
    assert_eq!(log, vec!["Checking shirt quality".to_string()]);
}

#[test]
fn call_center_routes_by_the_first_character() {
    let mut call_center: CallCenter<AccountHandler> = CallCenter::new();
    call_center.register_handler("1".to_string(), AccountHandler {});
    assert_eq!(
        call_center.handle("123".to_string()),
        "Hiya, I'm account handler! Happy to assist you with any problems in your account!"
    );
    assert_eq!(call_center.handle("9".to_string()), "I'm sorry, but I don't know what that is");
    let mut call_center: CallCenter<TransactionHandler> = CallCenter::new();
    call_center.register_handler("2".to_string(), TransactionHandler {});
    assert_eq!(
        call_center.handle("2x".to_string()),
        "Hola! I'm transaction handler. Ready to assist you with any problems regarding transactions."
    );
}

#[test]
fn handlers_answer_any_command_with_their_greeting() {
    let input = Input {
        command: "23".to_string(),
        client: "Discord".to_string(),
        user: "John Doe".to_string(),
    };
    assert_eq!(
        AccountHandler {}.handle(input),
        "Hiya, I'm account handler! Happy to assist you with any problems in your account!"
    );
    let input = Input {
        command: "".to_string(),
        client: "Discord".to_string(),
        user: "John Doe".to_string(),
    };
    assert_eq!(
        TransactionHandler {}.handle(input),
        "Hola! I'm transaction handler. Ready to assist you with any problems regarding transactions."
    );
}

#[test]
fn forum_relays_to_everyone_but_the_sender() {
    let forum = Forum {
        anons: vec![
            Anon { id: "a-1".to_string(), display: "xXx_Darkness_xXx".to_string() },
            Anon { id: "a-2".to_string(), display: "Tom4321".to_string() },
            Anon { id: "a-3".to_string(), display: "Lurker".to_string() },
        ],
    };
    let sender = Anon { id: "a-1".to_string(), display: "xXx_Darkness_xXx".to_string() };
    let lines = sender.send_message("Hello World!".to_string(), &forum);
    assert_eq!(lines.len(), 2);
    for line in &lines {
        assert_eq!(line, "Received Hello World! from a-1!");
    }
}

#[test]
fn empty_forum_relays_nothing() {
    let forum = Forum::new();
    let lines = forum.broadcast("a-1", "Hello Darkness!");
    assert_eq!(lines.len(), 0);
}

#[test]
fn new_anons_get_fresh_ids() {
    let anon = Anon::new("xXx_Darkness_xXx".to_string());
    assert_eq!(anon.display, "xXx_Darkness_xXx");
    assert_eq!(anon.id.chars().count(), 36);
}

#[test]
fn editor_snapshot_restores_the_saved_text() {
    let mut editor = Editor::new();
    let mut manager = SnapshotManager::new();
    editor.set_text("Hello World!".to_string());
    let saved = editor.save_state();
    let state_name = saved.name.clone();
    manager.save_snapshot(saved);
    editor.set_text("Goodbye cruel world!".to_string());
    let snapshot = manager.get_snapshot(state_name).unwrap();
    snapshot.restore(&mut editor);
    assert_eq!(editor.text, "Hello World!");
    assert_eq!(editor.font, "Times New Roman");
    assert_eq!(editor.color, (0, 0, 0, 255));
}

#[test]
fn snapshot_manager_misses_unknown_names() {
    let manager = SnapshotManager::new();
    assert!(manager.get_snapshot("SAVE-STATE".to_string()).is_none());
}

#[test]
fn music_player_transitions_between_modes() {
    let mut player = Player::new();
    player.add_song(Song::new("Beat It!", 30_000));
    player.add_song(Song::new("The Blues", 999_000));
    player.add_song(Song::new("Stairway to Heaven", 5_000));
    let mut music_player = MusicPlayer::new(player);
    assert_eq!(music_player.state, PlayerMode::Stopped);
    music_player.play();
    assert_eq!(music_player.state, PlayerMode::Playing);
    assert_eq!(music_player.player.playlist[0].cursor, 45);
    music_player.play();
    assert_eq!(music_player.state, PlayerMode::Playing);
    music_player.stop();
    assert_eq!(music_player.state, PlayerMode::Stopped);
    assert_eq!(music_player.player.playlist[0].cursor, 0);
}

#[test]
fn player_track_stepping_wraps_around() {
    let mut player = Player::new();
    player.add_song(Song::new("Beat It!", 30_000));
    player.add_song(Song::new("The Blues", 999_000));
    player.next_track();
    assert_eq!(player.current_track, 1);
    player.next_track();
    assert_eq!(player.current_track, 0);
    // The original remote's backward step lands on the following track too.
    player.prev_track();
    assert_eq!(player.current_track, 1);
    let (song, index) = player.get_current_track();
    assert_eq!(song.title, "The Blues");
    assert_eq!(index, 1);
}

#[test]
fn skipping_tracks_keeps_the_state() {
    let mut player = Player::new();
    player.add_song(Song::new("Beat It!", 30_000));
    player.add_song(Song::new("The Blues", 999_000));
    let state = PlayingState;
    let state = state.next(&mut player);
    assert_eq!(player.current_track, 1);
    let _state = state.prev(&mut player);
    assert_eq!(player.current_track, 0);
}

#[test]
fn user_lookup_finds_only_present_ids() {
    let users = vec![
        User { id: "u-1".to_string(), name: "John Doe".to_string() },
        User { id: "u-2".to_string(), name: "Jane Doe".to_string() },
    ];
    assert!(is_user_exist(users, "u-2".to_string()));
    let users = vec![User { id: "u-1".to_string(), name: "John Doe".to_string() }];
    assert!(!is_user_exist(users, "u-3".to_string()));
    assert!(!is_user_exist(Vec::new(), "u-1".to_string()));
}

#[test]
fn export_strategies_report_their_format() {
    assert_eq!(export_data("data".to_string(), KeJSONGan), "Exporting data as JSON");
    assert_eq!(export_data("data".to_string(), KeYAMLGan), "Exporting data as YAML");
    assert_eq!(export_data("data".to_string(), KeTOMLGan), "Exporting data as TOML");
}

#[test]
fn json_manager_parses_the_fixed_document() {
    let config = parse_config(None, JSONConfigurationManager).unwrap();
    assert_eq!(config.endpoint, "https://www.google.com");
    assert_eq!(config.timeout, 5000);
    let config = JSONConfigurationManager.process_file(Some("path/to/config")).unwrap();
    assert_eq!(config.endpoint, "https://www.google.com");
    assert_eq!(config.timeout, 5000);
}

#[test]
fn yaml_manager_yields_its_fixed_configuration() {
    let config = parse_config(None, YAMLConfigurationManager).unwrap();
    assert_eq!(config.endpoint, "https://twitter.com");
    assert_eq!(config.timeout, 10000);
}

#[test]
fn exporting_a_square_reports_its_side() {
    let exporter = JSONExporter;
    let square = Square { side: 2 };
    assert_eq!(exporter.export_square(&square), "Exporting square with side 2 as JSON...");
}
