pub mod cutl;
pub mod entity;
pub mod icon;
pub mod nametag;
pub mod player;
pub mod world;
