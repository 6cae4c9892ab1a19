use mason::game::{
    Game, GameCommand, GameConstructor, LoadProgress, Script, WebGame, WebGameConstructor,
};
use mason::scene::Handle;

#[test]
fn scripts_are_registered_under_their_names() {
    let scripts = GameConstructor.register();
    assert_eq!(scripts, vec![Script::Ball, Script::CameraController, Script::Player]);
    let names: Vec<&str> = scripts.iter().map(|script| script.name()).collect();
    assert_eq!(names, vec!["Ball", "CameraController", "PlayerController"]);
}

#[test]
fn handles_that_name_nothing() {
    assert!(Handle::none().is_none());
    assert!(!Handle::none().is_some());
    assert!(Handle::new(0, 1).is_some());
    assert!(Handle::new(1, 0).is_some());
    assert!(Handle::new(0, 0).is_none());
    assert_eq!(Handle::none(), Handle::new(0, 0));
}

#[test]
fn game_plays_the_scene_of_its_host() {
    let scene = Handle::new(7, 2);
    let mut game = GameConstructor.create_instance(scene);
    assert_eq!(game.scene(), scene);
    assert!(!game.is_loading());
    for progress in
        [LoadProgress::Pending, LoadProgress::Loaded(Handle::new(8, 1)), LoadProgress::Failed]
    {
        assert_eq!(game.update(progress), GameCommand::Nothing);
        assert_eq!(game.scene(), scene);
        assert!(!game.is_loading());
    }
}

#[test]
fn game_has_its_own_scene_loaded() {
    let mut game = Game::new(Handle::none());
    assert!(game.is_loading());
    assert!(game.scene().is_none());
    assert_eq!(game.scene_path(), "data/scene.rgs");
    assert_eq!(game.update(LoadProgress::Pending), GameCommand::Nothing);
    assert!(game.scene().is_none());
    let scene = Handle::new(8, 1);
    assert_eq!(game.update(LoadProgress::Loaded(scene)), GameCommand::ClearGravity(scene));
    assert_eq!(game.scene(), scene);
    assert_eq!(game.update(LoadProgress::Pending), GameCommand::Nothing);
    assert_eq!(game.scene(), scene);
}

#[test]
fn failed_loading_is_reported() {
    let mut game = Game::new(Handle::none());
    assert_eq!(game.update(LoadProgress::Failed), GameCommand::ReportFailure);
    assert!(game.scene().is_none());
    assert!(game.is_loading());
}

#[test]
fn web_game_loads_from_beside_its_page() {
    let game: WebGame = WebGameConstructor.create_instance(Handle::new(7, 2));
    assert_eq!(game.scene_path(), "../data/scene.rgs");
    assert_eq!(WebGame::new().scene_path(), "../data/scene.rgs");
}
