//! Smart merge: the better copy of every file is chosen, copied to the golden
//! copy and given back its metadata.

pub mod decyzja;
pub mod kopiowanie;
pub mod prawa_kopii;
pub mod prawa_nazw;
pub mod prawa_wyboru;
pub mod przebieg;
pub mod sciezki;
