//! Deep forensics: the Shannon entropy of every file and what it betrays.

pub mod entropia;
pub mod prawa_entropii;
pub mod prawa_przebiegu;
pub mod przebieg;
pub mod raport;
