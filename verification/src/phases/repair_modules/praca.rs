//! The work a repair asks for, and the answers it gets.
//!
//! Repairs and their verification touch the disk and hand files to format
//! engines. Here they only decide: from the answers so far they name the next
//! piece of work, or the result. Whoever runs them performs that work and adds
//! its answer to the list. An answer of another kind than the work asked for
//! counts as a failed one.

use vstd::prelude::*;

use crate::binary64::Binary64;
use crate::tekst;

verus! {

/// An engine that takes two copies of a file, or one, and builds a sound one.
#[derive(Clone, Copy, PartialEq, Eq, Structural)]
pub enum Silnik {
    ZipSplice,
    TarSplice,
    AsfSplice,
    RiffSplice,
    MkvSplice,
    Mp3Splice,
    PngClone,
    PngSanitize,
    JpegSplice,
    HeicClone,
    HeicNative,
    DngStructural,
    Mp4Clone,
    Mp4Native,
    Mp4Recontainer,
    Mp4Autopilot,
}

/// An engine that judges the content of a file.
#[derive(Clone, Copy, PartialEq, Eq, Structural)]
pub enum Badanie {
    /// Every entry of a ZIP archive reads, with its CRC32.
    ZipWpisy,
    /// The pixels of a HEIF image.
    HeicPiksele,
    /// The packets of a transport stream.
    TsPakiety,
    /// The tags of an FLV container.
    FlvTagi,
    /// The structure of a Matroska file.
    MkvStruktura,
    /// The CRC-32 sums of a Matroska file.
    MkvSumy,
    /// An ISOBMFF container with at least one track.
    IsoSciezki,
    /// A camera raw image.
    RawObraz,
    /// The entry headers of a tar archive.
    TarNaglowki,
    /// The objects of an ASF container.
    AsfObiekty,
    /// The chunks of a RIFF container.
    RiffFragmenty,
    /// The chain of MPEG audio frames.
    Mp3Ramki,
}

/// A piece of work.
pub enum Czynnosc {
    /// Find the size of a file.
    Zmierz(String),
    /// Read a whole file.
    Wczytaj(String),
    /// Find whether a file exists.
    SprawdzIstnienie(String),
    /// Open a file for reading.
    Otworz(String),
    /// Create a directory with its ancestors.
    UtworzKatalog(String),
    /// Create an empty file, or truncate it.
    UtworzPlik(String),
    /// Write a whole file.
    Zapisz(String, Vec<u8>),
    /// Copy the first file to the second path.
    Kopiuj(String, String),
    /// Rename the first path to the second.
    Przenies(String, String),
    /// Remove a file; the answer is not looked at.
    Usun(String),
    /// Stitch the two opened files into the created one.
    Zszyj,
    /// Fold the write-ahead log into the database.
    ScalWal(String),
    /// Run `quick_check` on a database.
    SprawdzBaze(String),
    /// Build bytes from the two copies that were read.
    Zloz(Silnik),
    /// Build candidates from two files.
    Kandydaci(String, String),
    /// Run an engine from the source, and a donor, to the target.
    Uruchom(Silnik, String, Option<String>, String),
    /// Compare the sizes of the media data of two files.
    PorownajMdat(String, String),
    /// Describe what a graft moved, from the two files.
    OpiszPrzeszczep(String, String),
    /// Let a learning cascade work on a file; name what it left.
    Autopilot(String),
    /// Judge the bytes that were read.
    Zbadaj(Badanie),
    /// Find whether frames can be decoded on this machine.
    SprawdzFfmpeg,
    /// Decode every frame of a file.
    DekodujWideo(String),
    /// Check the boxes of a container.
    SprawdzKontener(String),
}

/// A file that an engine put together, and what it says of it.
pub struct Kandydat {
    pub bytes: Vec<u8>,
    pub description: String,
    /// Entropy of the data that was moved over, in bits per byte.
    pub donated_data_entropy: Binary64,
    /// That entropy looks like sensor data.
    pub plausible: bool,
    /// The file decodes.
    pub decodes: bool,
}

/// How far the pixels of a HEIF image could be decoded.
#[derive(Clone, Copy, PartialEq, Eq, Structural)]
pub enum WeryfikacjaHeic {
    PikseleZdekodowane,
    TylkoStruktura,
    Odrzucony,
}

/// What a database said when it was checked.
pub enum StanBazy {
    Nieotwarta(String),
    Blad(String),
    Odpowiedz(String),
}

/// An answer.
pub enum Zdarzenie {
    Rozmiar(Result<u64, String>),
    Bajty(Result<Vec<u8>, String>),
    Udalo(bool),
    Zlozone(Option<Vec<u8>>),
    Kandydaci(Option<Vec<Kandydat>>),
    /// What an engine says of its work, where it succeeded.
    Opis(Option<String>),
    /// Yes, no, or no way to tell.
    Trojstan(Option<bool>),
    Heic(WeryfikacjaHeic),
    /// Soundness of a stream and its description; none where it is no stream.
    Strumien(Option<(bool, String)>),
    Baza(StanBazy),
    /// Names of the files in a directory, each with its path; none on failure.
    Pliki(Option<Vec<(String, String)>>),
}

/// A piece of work over plain values.
pub enum Ruch {
    Zmierz(Seq<char>),
    Wczytaj(Seq<char>),
    SprawdzIstnienie(Seq<char>),
    Otworz(Seq<char>),
    UtworzKatalog(Seq<char>),
    UtworzPlik(Seq<char>),
    Zapisz(Seq<char>, Seq<u8>),
    Kopiuj(Seq<char>, Seq<char>),
    Przenies(Seq<char>, Seq<char>),
    Usun(Seq<char>),
    Zszyj,
    ScalWal(Seq<char>),
    SprawdzBaze(Seq<char>),
    Zloz(Silnik),
    Kandydaci(Seq<char>, Seq<char>),
    Uruchom(Silnik, Seq<char>, Option<Seq<char>>, Seq<char>),
    PorownajMdat(Seq<char>, Seq<char>),
    OpiszPrzeszczep(Seq<char>, Seq<char>),
    Autopilot(Seq<char>),
    Zbadaj(Badanie),
    SprawdzFfmpeg,
    DekodujWideo(Seq<char>),
    SprawdzKontener(Seq<char>),
}

impl View for Czynnosc {
    type V = Ruch;

    open spec fn view(&self) -> Ruch {
        match *self {
            Czynnosc::Zmierz(p) => Ruch::Zmierz(p@),
            Czynnosc::Wczytaj(p) => Ruch::Wczytaj(p@),
            Czynnosc::SprawdzIstnienie(p) => Ruch::SprawdzIstnienie(p@),
            Czynnosc::Otworz(p) => Ruch::Otworz(p@),
            Czynnosc::UtworzKatalog(p) => Ruch::UtworzKatalog(p@),
            Czynnosc::UtworzPlik(p) => Ruch::UtworzPlik(p@),
            Czynnosc::Zapisz(p, b) => Ruch::Zapisz(p@, b@),
            Czynnosc::Kopiuj(p, q) => Ruch::Kopiuj(p@, q@),
            Czynnosc::Przenies(p, q) => Ruch::Przenies(p@, q@),
            Czynnosc::Usun(p) => Ruch::Usun(p@),
            Czynnosc::Zszyj => Ruch::Zszyj,
            Czynnosc::ScalWal(p) => Ruch::ScalWal(p@),
            Czynnosc::SprawdzBaze(p) => Ruch::SprawdzBaze(p@),
            Czynnosc::Zloz(s) => Ruch::Zloz(s),
            Czynnosc::Kandydaci(p, q) => Ruch::Kandydaci(p@, q@),
            Czynnosc::Uruchom(s, p, d, q) => Ruch::Uruchom(s, p@, tekst::widok(d), q@),
            Czynnosc::PorownajMdat(p, q) => Ruch::PorownajMdat(p@, q@),
            Czynnosc::OpiszPrzeszczep(p, q) => Ruch::OpiszPrzeszczep(p@, q@),
            Czynnosc::Autopilot(p) => Ruch::Autopilot(p@),
            Czynnosc::Zbadaj(b) => Ruch::Zbadaj(b),
            Czynnosc::SprawdzFfmpeg => Ruch::SprawdzFfmpeg,
            Czynnosc::DekodujWideo(p) => Ruch::DekodujWideo(p@),
            Czynnosc::SprawdzKontener(p) => Ruch::SprawdzKontener(p@),
        }
    }
}

/// What comes next: a piece of work, or the result.
pub enum Nastepny<T> {
    Ruch(Ruch),
    Koniec(T),
}

/// The result of a repair: the file and the line for the operational log.
pub type Naprawa = Option<(Seq<char>, Seq<char>)>;

/// What a verification comes to, the proof that was given or the reason of refusal.
pub type Werdykt = Result<Seq<char>, Seq<char>>;

/// The next step of a repair.
pub enum KrokNaprawy {
    Wykonaj(Czynnosc),
    Koniec(Option<(String, String)>),
}

impl View for KrokNaprawy {
    type V = Nastepny<Naprawa>;

    open spec fn view(&self) -> Nastepny<Naprawa> {
        match *self {
            KrokNaprawy::Wykonaj(c) => Nastepny::Ruch(c@),
            KrokNaprawy::Koniec(Some((p, o))) => Nastepny::Koniec(Some((p@, o@))),
            KrokNaprawy::Koniec(None) => Nastepny::Koniec(None),
        }
    }
}

/// The outcome of verifying a repaired file. `Ok` names the proof, so that the
/// log tells a strong guarantee from a weak one; `Err` gives the reason.
pub type WynikWeryfikacji = Result<&'static str, String>;

/// The verdict over plain values.
pub open spec fn werdykt(w: WynikWeryfikacji) -> Werdykt {
    match w {
        Ok(d) => Ok(d@),
        Err(p) => Err(p@),
    }
}

/// The next step of a verification.
pub enum KrokWeryfikacji {
    Wykonaj(Czynnosc),
    Werdykt(WynikWeryfikacji),
}

impl View for KrokWeryfikacji {
    type V = Nastepny<Werdykt>;

    open spec fn view(&self) -> Nastepny<Werdykt> {
        match *self {
            KrokWeryfikacji::Wykonaj(c) => Nastepny::Ruch(c@),
            KrokWeryfikacji::Werdykt(w) => Nastepny::Koniec(werdykt(w)),
        }
    }
}

/// The answer says that the work succeeded.
pub open spec fn powiodlo_sie(z: Zdarzenie) -> bool {
    z matches Zdarzenie::Udalo(true)
}

/// Whether the work succeeded.
pub fn udane(z: &Zdarzenie) -> (r: bool)
    ensures
        r == powiodlo_sie(*z),
{
    match z {
        Zdarzenie::Udalo(b) => *b,
        _ => false,
    }
}

} // verus!
