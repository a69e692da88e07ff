//! Verified game-logic core of the T5F real-time strategy game: ownership and
//! selection rules, orders and targeting, building placement, the network
//! identifiers of objects, resource platforms, loading progress, menus, and
//! the integer parts of its random numbers and maths.

pub mod command;
pub mod commander;
pub mod identifiers;
pub mod int_ext;
pub mod loading;
pub mod menu;
pub mod net;
pub mod object_type;
pub mod pathfinder;
pub mod placement;
pub mod production;
pub mod random;
pub mod resource_node;
pub mod select;
pub mod slim;
pub mod team;
