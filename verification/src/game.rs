//! The plugin around the scripts: which scripts it registers, which scene it plays, and what
//! it does when the scene has been loaded.
//!
//! Loading is the work of the host. The game says whether a scene has to be loaded and from
//! where, is told how the loading went, and answers with what is to be done next.

use vstd::prelude::*;
use crate::scene::Handle;

verus! {

/// The scripts that the game brings.
#[derive(Clone, Copy, Debug, PartialEq, Eq, Structural)]
pub enum Script {
    Ball,
    CameraController,
    Player,
}

/// The name under which a script is registered.
pub open spec fn script_name(script: Script) -> Seq<char> {
    match script {
        Script::Ball => "Ball"@,
        Script::CameraController => "CameraController"@,
        Script::Player => "PlayerController"@,
    }
}

impl Script {
    /// The name under which the script is registered.
    pub fn name(&self) -> (name: &'static str)
        ensures
            name@ == script_name(*self),
    {
        match self {
            Script::Ball => "Ball",
            Script::CameraController => "CameraController",
            Script::Player => "PlayerController",
        }
    }
}

/// How the loading of a scene stands, as the host found it when it asked.
#[derive(Clone, Copy, Debug, PartialEq, Eq, Structural)]
pub enum LoadProgress {
    /// Nothing has come of it since the host last asked.
    Pending,
    /// The scene is loaded and the host has taken it in under this handle.
    Loaded(Handle),
    /// The scene could not be loaded.
    Failed,
}

/// What the game asks of the host after an update.
#[derive(Clone, Copy, Debug, PartialEq, Eq, Structural)]
pub enum GameCommand {
    /// Nothing to do.
    Nothing,
    /// Switch gravity off in this scene.
    ClearGravity(Handle),
    /// Report that the scene could not be loaded.
    ReportFailure,
}

/// The state of a game.
pub struct GameModel {
    pub scene: Handle,
    pub loading: bool,
}

impl GameModel {
    /// The game after the host reported `progress`: a loaded scene becomes the scene of a
    /// game that was loading one. Nothing else changes the game.
    pub open spec fn after(self, progress: LoadProgress) -> GameModel {
        match progress {
            LoadProgress::Loaded(scene) if self.loading => GameModel { scene, ..self },
            _ => self,
        }
    }

    /// What a game asks for when the host reported `progress`.
    pub open spec fn command(self, progress: LoadProgress) -> GameCommand {
        if self.loading {
            match progress {
                LoadProgress::Pending => GameCommand::Nothing,
                LoadProgress::Loaded(scene) => GameCommand::ClearGravity(scene),
                LoadProgress::Failed => GameCommand::ReportFailure,
            }
        } else {
            GameCommand::Nothing
        }
    }
}

/// Makes the game for the desktop.
#[derive(Clone, Copy, Debug)]
pub struct GameConstructor;

/// The game for the desktop.
#[derive(Clone, Copy, Debug)]
pub struct Game {
    scene: Handle,
    loading: bool,
}

impl View for Game {
    type V = GameModel;

    closed spec fn view(&self) -> GameModel {
        GameModel { scene: self.scene, loading: self.loading }
    }
}

impl GameConstructor {
    /// The scripts to register, in the order of their registration.
    pub fn register(&self) -> (scripts: Vec<Script>)
        ensures
            scripts@ == seq![Script::Ball, Script::CameraController, Script::Player],
    {
        let mut scripts: Vec<Script> = Vec::new();
        scripts.push(Script::Ball);
        scripts.push(Script::CameraController);
        scripts.push(Script::Player);
        scripts
    }

    /// The game for a host that may have a scene of its own to play, as an editor has.
    pub fn create_instance(&self, override_scene: Handle) -> (game: Game)
        ensures
            game@ == (GameModel {
                scene: override_scene,
                loading: override_scene.names_nothing(),
            }),
    {
        Game::new(override_scene)
    }
}

impl Game {
    /// A game that plays `override_scene` where that names a scene, and else has its own
    /// scene loaded.
    pub fn new(override_scene: Handle) -> (game: Game)
        ensures
            game@ == (GameModel {
                scene: override_scene,
                loading: override_scene.names_nothing(),
            }),
    {
        if override_scene.is_some() {
            Game { scene: override_scene, loading: false }
        } else {
            Game { scene: Handle::none(), loading: true }
        }
    }

    /// The file that holds the scene of the game.
    pub fn scene_path(&self) -> (path: &'static str)
        ensures
            path@ == "data/scene.rgs"@,
    {
        "data/scene.rgs"
    }

    /// The scene that the game plays; the handle names nothing until the scene is loaded.
    pub fn scene(&self) -> (scene: Handle)
        ensures
            scene == self@.scene,
    {
        self.scene
    }

    /// Whether the game has its scene loaded by the host.
    pub fn is_loading(&self) -> (loading: bool)
        ensures
            loading == self@.loading,
    {
        self.loading
    }

    /// Takes in how the loading stands. A game that has its scene loaded adopts the loaded
    /// scene and asks for gravity to be switched off in it, or asks for a failure to be
    /// reported; a game that plays the scene of its host asks for nothing.
    pub fn update(&mut self, progress: LoadProgress) -> (command: GameCommand)
        ensures
            final(self)@ == old(self)@.after(progress),
            command == old(self)@.command(progress),
    {
        if !self.loading {
            return GameCommand::Nothing;
        }
        match progress {
            LoadProgress::Pending => GameCommand::Nothing,
            LoadProgress::Loaded(scene) => {
                self.scene = scene;
                GameCommand::ClearGravity(scene)
            },
            LoadProgress::Failed => GameCommand::ReportFailure,
        }
    }
}

/// Makes the game for the web.
#[derive(Clone, Copy, Debug)]
pub struct WebGameConstructor;

/// The game for the web. It has its scene loaded when it is made and keeps no state.
#[derive(Clone, Copy, Debug)]
pub struct WebGame {}

impl WebGameConstructor {
    /// The game for the web; a scene of the host is not played there.
    pub fn create_instance(&self, override_scene: Handle) -> (game: WebGame)
        ensures
            game == (WebGame {  }),
    {
        WebGame::new()
    }
}

impl WebGame {
    pub fn new() -> (game: WebGame)
        ensures
            game == (WebGame {  }),
    {
        WebGame {  }
    }

    /// The file that holds the scene of the game, as the page of the game sees it.
    pub fn scene_path(&self) -> (path: &'static str)
        ensures
            path@ == "../data/scene.rgs"@,
    {
        "../data/scene.rgs"
    }
}

} // verus!
