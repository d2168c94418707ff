//! The game-logic core of the DayDreams extensions: menus and settings, the occlusion
//! bookkeeping, the house seed generator, and the small state machines the props, the
//! portraits, the player and the sleepwalkers run -- everything that decides, as opposed to
//! everything that draws. Distances, angles and seconds are the renderer's to measure; what
//! they lead to is decided here, and each module says which answers it takes.

pub mod audio;
pub mod game_header;
pub mod input;
pub mod text;

pub mod layout;
pub mod menu;
pub mod menu_view;
pub mod scenes;
pub mod settings;

pub mod meadow;
pub mod occlusion;
pub mod scissor;
pub mod skeleton;
pub mod thirdperson;

pub mod inventory;
pub mod jump;
pub mod key;
pub mod npc;
pub mod painting;
pub mod prochouse;
pub mod rotate;
pub mod sprint;
pub mod tool;
