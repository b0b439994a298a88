pub use crate::cheats::{initialize_cheats, parse_gamegenie_code, parse_gameshark_code, validate_gamegenie_code, validate_gameshark_code, Cheat, CheatState};
