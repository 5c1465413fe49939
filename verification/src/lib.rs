//! Korean four-pillars (사주팔자) astrology computation.
pub mod branches;
pub mod calendar;
pub mod compat;
pub mod daeun;
pub mod daily;
pub mod elements;
pub mod engine;
pub mod gongmang;
pub mod input;
pub mod interpreter;
pub mod lucky;
pub mod outlook;
pub mod pillars;
pub mod score;
pub mod shinsal;
pub mod tables;
pub mod ten_gods;
pub mod text;
pub mod types;

pub use engine::SajuEngine;
pub use pillars::calculate_four_pillars;
pub use types::{Branch, Element, ElementBalance, FourPillars, Pillar, Polarity, Stem, TenGod};
