//! Choice of the winning side of a file.

use vstd::prelude::*;

use crate::binary64::Binary64;
use crate::phases::phase8;

verus! {

/// All that the earlier phases know of one file, with the inode metadata that
/// its copy gets back.
pub struct MergeCandidate {
    pub id: i32,
    pub rel_path: String,
    pub in_ufs: bool,
    pub in_script: bool,
    pub hash_match: Option<bool>,
    pub size_ufs: Option<i64>,
    pub size_script: Option<i64>,
    pub uid_ufs: Option<u32>,
    pub uid_script: Option<u32>,
    pub gid_ufs: Option<u32>,
    pub gid_script: Option<u32>,
    pub mode_ufs: Option<u32>,
    pub mode_script: Option<u32>,
    pub mtime_ufs: Option<i64>,
    pub mtime_script: Option<i64>,
    pub is_symlink_ufs: Option<bool>,
    pub is_symlink_script: Option<bool>,
    pub zeros_pct_ufs: Option<Binary64>,
    pub zeros_pct_script: Option<Binary64>,
    pub eof_ok_ufs: Option<bool>,
    pub eof_ok_script: Option<bool>,
    pub entropy_ufs: Option<Binary64>,
    pub entropy_script: Option<Binary64>,
    pub utf8_ok_ufs: Option<bool>,
    pub utf8_ok_script: Option<bool>,
    pub structure_ok_ufs: Option<bool>,
    pub structure_ok_script: Option<bool>,
    pub exif_ok_ufs: Option<bool>,
    pub exif_ok_script: Option<bool>,
    pub media_decoded_ufs: Option<bool>,
    pub media_decoded_script: Option<bool>,
    pub has_xattr_ufs: Option<bool>,
    pub has_xattr_script: Option<bool>,
    pub io_error_ufs: Option<bool>,
    pub io_error_script: Option<bool>,
    pub yara_match_ufs: Option<String>,
    pub yara_match_script: Option<String>,
    pub repaired_path_ufs: Option<String>,
    pub repaired_path_script: Option<String>,
    /// A file put together from both damaged copies and verified by decoding.
    pub smart_splice_path: Option<String>,
}

/// The side that wins.
#[derive(Clone, Copy, PartialEq, Eq, Structural)]
pub enum Strona {
    Ufs,
    Script,
    /// The file put together from both sides.
    Splice,
}

impl Strona {
    /// The name under which the database knows the side.
    pub open spec fn oznaczenie(self) -> Seq<char> {
        match self {
            Strona::Ufs => "ufs"@,
            Strona::Script => "script"@,
            Strona::Splice => "splice"@,
        }
    }

    /// The name under which the database knows the side.
    pub fn nazwa(self) -> (r: &'static str)
        ensures
            r@ == self.oznaczenie(),
    {
        match self {
            Strona::Ufs => "ufs",
            Strona::Script => "script",
            Strona::Splice => "splice",
        }
    }
}

/// One side has a flaw and the other has not: the other wins.
pub open spec fn odrzucenie(ufs: bool, script: bool, wada_ufs: Seq<char>, wada_script: Seq<char>) -> Option<
    (Strona, Seq<char>),
> {
    if ufs && !script {
        Some((Strona::Script, wada_ufs))
    } else if script && !ufs {
        Some((Strona::Ufs, wada_script))
    } else {
        None
    }
}

/// The first rule that decides.
pub open spec fn lub(a: Option<(Strona, Seq<char>)>, b: (Strona, Seq<char>)) -> (Strona, Seq<char>) {
    match a {
        Some(d) => d,
        None => b,
    }
}

/// One copy is filled with zeros, above the threshold for a husk, and the other
/// is not.
pub open spec fn wydmuszka(f: MergeCandidate) -> Option<(Strona, Seq<char>)> {
    odrzucenie(
        phase8::powyzej(phase8::pomiar(f.zeros_pct_ufs, 0), phase8::PROG_ZER),
        phase8::powyzej(phase8::pomiar(f.zeros_pct_script, 0), phase8::PROG_ZER),
        "UFS odrzucony (Wydmuszka wypełniona zerami)"@,
        "Skrypt odrzucony (Wydmuszka wypełniona zerami)"@,
    )
}

/// At most the threshold.
pub open spec fn w_normie(x: Binary64) -> bool {
    x.najwyzej(Binary64 { bits: phase8::PROG_SZUMU })
}

/// One copy is noise and the other is not.
pub open spec fn szum(f: MergeCandidate) -> Option<(Strona, Seq<char>)> {
    let u = phase8::pomiar(f.entropy_ufs, phase8::ENTROPIA_NIEZNANA);
    let s = phase8::pomiar(f.entropy_script, phase8::ENTROPIA_NIEZNANA);
    if phase8::powyzej(u, phase8::PROG_SZUMU) && w_normie(s) {
        Some((Strona::Script, "UFS odrzucony (Skrajna entropia / Szum)"@))
    } else if phase8::powyzej(s, phase8::PROG_SZUMU) && w_normie(u) {
        Some((Strona::Ufs, "Skrypt odrzucony (Skrajna entropia / Szum)"@))
    } else {
        None
    }
}

/// One copy is larger than the other.
pub open spec fn wiekszy(f: MergeCandidate) -> Option<(Strona, Seq<char>)> {
    match (f.size_ufs, f.size_script) {
        (Some(u), Some(s)) => if u > s {
            Some((Strona::Ufs, "Wybrano UFS (Większy rozmiar pliku)"@))
        } else if s > u {
            Some((Strona::Script, "Wybrano Skrypt (Większy rozmiar pliku)"@))
        } else {
            None
        },
        _ => None,
    }
}

/// One side kept the extended attributes and the other lost them.
pub open spec fn atrybuty(f: MergeCandidate) -> Option<(Strona, Seq<char>)> {
    odrzucenie(
        f.has_xattr_script == Some(true),
        f.has_xattr_ufs == Some(true),
        "Wybrano Skrypt (Ocalił ukryte atrybuty xattr)"@,
        "Wybrano UFS (Ocalił ukryte atrybuty xattr)"@,
    )
}

/// The choice between two copies of a file: the harder signs of damage decide
/// before the softer ones, and a tie goes to the script.
pub open spec fn wybor_wspolnego(f: MergeCandidate) -> (Strona, Seq<char>) {
    lub(
        odrzucenie(
            f.io_error_ufs == Some(true),
            f.io_error_script == Some(true),
            "UFS odrzucony (Błąd I/O / Bad Sector)"@,
            "Skrypt odrzucony (Błąd I/O / Bad Sector)"@,
        ),
        lub(
        odrzucenie(
            f.media_decoded_ufs == Some(false),
            f.media_decoded_script == Some(false),
            "UFS odrzucony (Ucięty obraz / Gray Banding)"@,
            "Skrypt odrzucony (Ucięty obraz / Gray Banding)"@,
        ),
        lub(
        odrzucenie(
            f.structure_ok_ufs == Some(false),
            f.structure_ok_script == Some(false),
            "UFS odrzucony (Zepsuta struktura ZIP/DOCX)"@,
            "Skrypt odrzucony (Zepsuta struktura ZIP/DOCX)"@,
        ),
        lub(
        odrzucenie(
            f.utf8_ok_ufs == Some(false),
            f.utf8_ok_script == Some(false),
            "UFS odrzucony (Zupa binarna w pliku tekstowym)"@,
            "Skrypt odrzucony (Zupa binarna w pliku tekstowym)"@,
        ),
        lub(
        odrzucenie(
            f.exif_ok_ufs == Some(false),
            f.exif_ok_script == Some(false),
            "UFS odrzucony (Zepsute offsety EXIF)"@,
            "Skrypt odrzucony (Zepsute offsety EXIF)"@,
        ),
        lub(
        odrzucenie(
            f.eof_ok_ufs == Some(false),
            f.eof_ok_script == Some(false),
            "UFS odrzucony (Brak znacznika końca pliku EOF)"@,
            "Skrypt odrzucony (Brak znacznika końca pliku EOF)"@,
        ),
        lub(
            wydmuszka(f),
            lub(
                szum(f),
                lub(
                    atrybuty(f),
                    lub(
                        wiekszy(f),
                        (
                            Strona::Script,
                            if f.hash_match == Some(true) {
                                "Zgodne bit-do-bitu (Priorytet domyślny: Skrypt Autorski)"@
                            } else {
                                "Remis heurystyczny (Priorytet domyślny: Skrypt Autorski)"@
                            },
                        ),
                    ),
                ),
            ),
        ),
    ),
    ),
    ),
    ),
    ),
    )
}

/// Either both sides carry a malware match or neither does.
pub open spec fn rowno_czyste(f: MergeCandidate) -> bool {
    f.yara_match_ufs is Some <==> f.yara_match_script is Some
}

/// The choice for a file of one side alone: it comes from there, whatever is
/// known of it, unless a file was put together that is no less clean.
pub open spec fn wybor_unikalnego(f: MergeCandidate) -> (Strona, Seq<char>) {
    if f.smart_splice_path is Some && rowno_czyste(f) {
        (
            Strona::Splice,
            "Złożono z dwóch uszkodzonych kopii i zweryfikowano dekodowaniem (Faza 18)"@,
        )
    } else if f.in_script {
        (Strona::Script, "Plik unikalny (Tylko Skrypt Autorski)"@)
    } else {
        (Strona::Ufs, "Plik unikalny (Tylko UFS Explorer)"@)
    }
}

/// The winning side of a file and why it wins. A file of one side alone is not
/// compared with anything. Of two, a clean side beats an infected one whatever
/// else holds; then a file put together from both copies wins, then a physically
/// restored one; then the copies are compared.
pub open spec fn decyzja(f: MergeCandidate) -> (Strona, Seq<char>) {
    if f.in_ufs != f.in_script {
        wybor_unikalnego(f)
    } else {
        lub(
            odrzucenie(
                f.yara_match_ufs is Some,
                f.yara_match_script is Some,
                "UFS odrzucony (Zainfekowany Malware/YARA)"@,
                "Skrypt odrzucony (Zainfekowany Malware/YARA)"@,
            ),
            if f.smart_splice_path is Some {
                (
                    Strona::Splice,
                    "Złożono z dwóch uszkodzonych kopii i zweryfikowano dekodowaniem (Faza 18)"@,
                )
            } else if f.repaired_path_ufs is Some && f.repaired_path_script is Some {
                (Strona::Script, "Obydwa zrekonstruowane (Priorytet domyślny: Skrypt)"@)
            } else if f.repaired_path_ufs is Some {
                (
                    Strona::Ufs,
                    "Wybrano UFS (Użyto wersji fizycznie zrekonstruowanej przez system)"@,
                )
            } else if f.repaired_path_script is Some {
                (
                    Strona::Script,
                    "Wybrano Skrypt (Użyto wersji fizycznie zrekonstruowanej przez system)"@,
                )
            } else if f.in_ufs {
                wybor_wspolnego(f)
            } else {
                (Strona::Ufs, "Plik unikalny (Tylko UFS Explorer)"@)
            },
        )
    }
}

/// The winning side of a file that is on both sides, unrestored and equally clean.
fn wybierz_wspolny(file: &MergeCandidate) -> (r: (Strona, &'static str))
    ensures
        r.0 == wybor_wspolnego(*file).0,
        r.1@ == wybor_wspolnego(*file).1,
{
    let (u, s) = (phase8::tak(file.io_error_ufs), phase8::tak(file.io_error_script));
    if u && !s {
        return (Strona::Script, "UFS odrzucony (Błąd I/O / Bad Sector)");
    }
    if s && !u {
        return (Strona::Ufs, "Skrypt odrzucony (Błąd I/O / Bad Sector)");
    }
    let (u, s) = (phase8::nie(file.media_decoded_ufs), phase8::nie(file.media_decoded_script));
    if u && !s {
        return (Strona::Script, "UFS odrzucony (Ucięty obraz / Gray Banding)");
    }
    if s && !u {
        return (Strona::Ufs, "Skrypt odrzucony (Ucięty obraz / Gray Banding)");
    }
    let (u, s) = (phase8::nie(file.structure_ok_ufs), phase8::nie(file.structure_ok_script));
    if u && !s {
        return (Strona::Script, "UFS odrzucony (Zepsuta struktura ZIP/DOCX)");
    }
    if s && !u {
        return (Strona::Ufs, "Skrypt odrzucony (Zepsuta struktura ZIP/DOCX)");
    }
    let (u, s) = (phase8::nie(file.utf8_ok_ufs), phase8::nie(file.utf8_ok_script));
    if u && !s {
        return (Strona::Script, "UFS odrzucony (Zupa binarna w pliku tekstowym)");
    }
    if s && !u {
        return (Strona::Ufs, "Skrypt odrzucony (Zupa binarna w pliku tekstowym)");
    }
    let (u, s) = (phase8::nie(file.exif_ok_ufs), phase8::nie(file.exif_ok_script));
    if u && !s {
        return (Strona::Script, "UFS odrzucony (Zepsute offsety EXIF)");
    }
    if s && !u {
        return (Strona::Ufs, "Skrypt odrzucony (Zepsute offsety EXIF)");
    }
    let (u, s) = (phase8::nie(file.eof_ok_ufs), phase8::nie(file.eof_ok_script));
    if u && !s {
        return (Strona::Script, "UFS odrzucony (Brak znacznika końca pliku EOF)");
    }
    if s && !u {
        return (Strona::Ufs, "Skrypt odrzucony (Brak znacznika końca pliku EOF)");
    }
    let zu = phase8::zmierzone(file.zeros_pct_ufs, 0);
    let zs = phase8::zmierzone(file.zeros_pct_script, 0);
    let (u, s) = (
        phase8::przekracza(zu, phase8::PROG_ZER),
        phase8::przekracza(zs, phase8::PROG_ZER),
    );
    if u && !s {
        return (Strona::Script, "UFS odrzucony (Wydmuszka wypełniona zerami)");
    }
    if s && !u {
        return (Strona::Ufs, "Skrypt odrzucony (Wydmuszka wypełniona zerami)");
    }
    let eu = phase8::zmierzone(file.entropy_ufs, phase8::ENTROPIA_NIEZNANA);
    let es = phase8::zmierzone(file.entropy_script, phase8::ENTROPIA_NIEZNANA);
    let prog_szumu = Binary64 { bits: phase8::PROG_SZUMU };
    if phase8::przekracza(eu, phase8::PROG_SZUMU) && es.co_najwyzej(prog_szumu) {
        return (Strona::Script, "UFS odrzucony (Skrajna entropia / Szum)");
    }
    if phase8::przekracza(es, phase8::PROG_SZUMU) && eu.co_najwyzej(prog_szumu) {
        return (Strona::Ufs, "Skrypt odrzucony (Skrajna entropia / Szum)");
    }
    let (xu, xs) = (phase8::tak(file.has_xattr_ufs), phase8::tak(file.has_xattr_script));
    if xu && !xs {
        return (Strona::Ufs, "Wybrano UFS (Ocalił ukryte atrybuty xattr)");
    }
    if xs && !xu {
        return (Strona::Script, "Wybrano Skrypt (Ocalił ukryte atrybuty xattr)");
    }
    if let (Some(u), Some(s)) = (file.size_ufs, file.size_script) {
        if u > s {
            return (Strona::Ufs, "Wybrano UFS (Większy rozmiar pliku)");
        }
        if s > u {
            return (Strona::Script, "Wybrano Skrypt (Większy rozmiar pliku)");
        }
    }
    if phase8::tak(file.hash_match) {
        (Strona::Script, "Zgodne bit-do-bitu (Priorytet domyślny: Skrypt Autorski)")
    } else {
        (Strona::Script, "Remis heurystyczny (Priorytet domyślny: Skrypt Autorski)")
    }
}

/// The winning side of a file and why it wins.
pub fn wybierz_strone(file: &MergeCandidate) -> (r: (Strona, &'static str))
    ensures
        r.0 == decyzja(*file).0,
        r.1@ == decyzja(*file).1,
{
    let zu = file.yara_match_ufs.is_some();
    let zs = file.yara_match_script.is_some();
    let nu = file.repaired_path_ufs.is_some();
    let ns = file.repaired_path_script.is_some();
    if file.in_ufs != file.in_script {
        if file.smart_splice_path.is_some() && zu == zs {
            (
                Strona::Splice,
                "Złożono z dwóch uszkodzonych kopii i zweryfikowano dekodowaniem (Faza 18)",
            )
        } else if file.in_script {
            (Strona::Script, "Plik unikalny (Tylko Skrypt Autorski)")
        } else {
            (Strona::Ufs, "Plik unikalny (Tylko UFS Explorer)")
        }
    } else if zu && !zs {
        (Strona::Script, "UFS odrzucony (Zainfekowany Malware/YARA)")
    } else if zs && !zu {
        (Strona::Ufs, "Skrypt odrzucony (Zainfekowany Malware/YARA)")
    } else if file.smart_splice_path.is_some() {
        (
            Strona::Splice,
            "Złożono z dwóch uszkodzonych kopii i zweryfikowano dekodowaniem (Faza 18)",
        )
    } else if nu && ns {
        (Strona::Script, "Obydwa zrekonstruowane (Priorytet domyślny: Skrypt)")
    } else if nu {
        (Strona::Ufs, "Wybrano UFS (Użyto wersji fizycznie zrekonstruowanej przez system)")
    } else if ns {
        (Strona::Script, "Wybrano Skrypt (Użyto wersji fizycznie zrekonstruowanej przez system)")
    } else if file.in_ufs {
        wybierz_wspolny(file)
    } else {
        (Strona::Ufs, "Plik unikalny (Tylko UFS Explorer)")
    }
}

/// The name of the winning side of a file, and why it wins.
pub fn decide_winner(file: &MergeCandidate) -> (r: (&'static str, &'static str))
    ensures
        r.0@ == decyzja(*file).0.oznaczenie(),
        r.1@ == decyzja(*file).1,
{
    let (strona, powod) = wybierz_strone(file);
    (strona.nazwa(), powod)
}

/// Where both sides have a file, a clean side beats an infected one, whatever
/// else holds of either.
pub proof fn zainfekowana_strona_przegrywa_z_czysta(f: MergeCandidate)
    requires
        f.in_ufs && f.in_script,
    ensures
        f.yara_match_ufs is Some && f.yara_match_script is None ==> decyzja(f).0 == Strona::Script,
        f.yara_match_script is Some && f.yara_match_ufs is None ==> decyzja(f).0 == Strona::Ufs,
{
}

/// The file put together from both copies wins exactly where there is one and
/// no side is cleaner than the other.
pub proof fn zlozenie_wygrywa(f: MergeCandidate)
    ensures
        decyzja(f).0 == Strona::Splice <==> f.smart_splice_path is Some && rowno_czyste(f),
{
}

/// Where both sides have a file, none is cleaner and nothing was put together, a
/// restored copy wins over an unrestored one, whatever their flaws.
pub proof fn naprawiona_wygrywa_z_nienaprawiona(f: MergeCandidate)
    requires
        f.in_ufs && f.in_script,
        rowno_czyste(f),
        f.smart_splice_path is None,
    ensures
        f.repaired_path_ufs is Some && f.repaired_path_script is None ==> decyzja(f).0
            == Strona::Ufs,
        f.repaired_path_script is Some ==> decyzja(f).0 == Strona::Script,
{
}

/// The same file with its two sides exchanged.
pub open spec fn zamieniony(f: MergeCandidate) -> MergeCandidate {
    MergeCandidate {
        id: f.id,
        rel_path: f.rel_path,
        in_ufs: f.in_script,
        in_script: f.in_ufs,
        hash_match: f.hash_match,
        size_ufs: f.size_script,
        size_script: f.size_ufs,
        uid_ufs: f.uid_script,
        uid_script: f.uid_ufs,
        gid_ufs: f.gid_script,
        gid_script: f.gid_ufs,
        mode_ufs: f.mode_script,
        mode_script: f.mode_ufs,
        mtime_ufs: f.mtime_script,
        mtime_script: f.mtime_ufs,
        is_symlink_ufs: f.is_symlink_script,
        is_symlink_script: f.is_symlink_ufs,
        zeros_pct_ufs: f.zeros_pct_script,
        zeros_pct_script: f.zeros_pct_ufs,
        eof_ok_ufs: f.eof_ok_script,
        eof_ok_script: f.eof_ok_ufs,
        entropy_ufs: f.entropy_script,
        entropy_script: f.entropy_ufs,
        utf8_ok_ufs: f.utf8_ok_script,
        utf8_ok_script: f.utf8_ok_ufs,
        structure_ok_ufs: f.structure_ok_script,
        structure_ok_script: f.structure_ok_ufs,
        exif_ok_ufs: f.exif_ok_script,
        exif_ok_script: f.exif_ok_ufs,
        media_decoded_ufs: f.media_decoded_script,
        media_decoded_script: f.media_decoded_ufs,
        has_xattr_ufs: f.has_xattr_script,
        has_xattr_script: f.has_xattr_ufs,
        io_error_ufs: f.io_error_script,
        io_error_script: f.io_error_ufs,
        yara_match_ufs: f.yara_match_script,
        yara_match_script: f.yara_match_ufs,
        repaired_path_ufs: f.repaired_path_script,
        repaired_path_script: f.repaired_path_ufs,
        smart_splice_path: f.smart_splice_path,
    }
}

/// Every rule treats the two sides alike: with the sides exchanged, a win of one
/// side becomes a win of the other. Only a tie goes to the script both ways.
pub proof fn reguly_sa_symetryczne(f: MergeCandidate)
    requires
        f.in_ufs || f.in_script,
    ensures
        decyzja(f).0 == Strona::Ufs ==> decyzja(zamieniony(f)).0 == Strona::Script,
        decyzja(zamieniony(f)).0 == Strona::Ufs ==> decyzja(f).0 == Strona::Script,
        decyzja(f).0 == Strona::Splice <==> decyzja(zamieniony(f)).0 == Strona::Splice,
{
}

/// A file that is on one side only is taken from there, infected, damaged or
/// not, unless one was put together. The side without it never wins.
pub proof fn plik_unikalny_ze_swojej_strony(f: MergeCandidate)
    requires
        f.in_ufs != f.in_script,
    ensures
        f.smart_splice_path is None ==> decyzja(f).0 == if f.in_ufs {
            Strona::Ufs
        } else {
            Strona::Script
        },
        f.in_ufs ==> decyzja(f).0 != Strona::Script,
        f.in_script ==> decyzja(f).0 != Strona::Ufs,
{
}

} // verus!
