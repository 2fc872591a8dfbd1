//! Decision core of a two-source file recovery pipeline.
//!
//! Two programs recovered the same damaged disk. The phases judge what each of
//! them brought back, repair what can be repaired and choose the better copy.
//! Nothing here touches a disk: a phase is told what was read and says what to
//! do next.

pub mod bajty;
pub mod binary64;
pub mod cyfry;
pub mod euro_csv;
pub mod licznik;
pub mod phases;
pub mod prawa_liczb;
pub mod sciezka;
pub mod tekst;
