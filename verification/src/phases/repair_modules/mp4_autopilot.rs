//! MP4: a learning cascade with a pool of donors, after all else failed.

use vstd::prelude::*;

use crate::phases::repair_modules::mp4;
use crate::phases::repair_modules::praca;
use crate::phases::repair_modules::praca::{
    Czynnosc, KrokNaprawy, KrokWeryfikacji, Naprawa, Nastepny, Ruch, Werdykt, Zdarzenie,
};
use crate::phases::repair_modules::weryfikacja;
use crate::phases::repair_modules::{RepairContext, RepairModule};
use crate::sciezka;
use crate::tekst;

verus! {

/// Hashes a path with `std::collections::hash_map::DefaultHasher`. Nothing is
/// claimed of the number: the standard library leaves its algorithm open, and the
/// bytes that a path feeds to it differ between machines.
#[verifier::external_body]
pub fn skrot_sciezki(p: &str) -> (r: u64) {
    let mut hasher = std::collections::hash_map::DefaultHasher::new();
    std::hash::Hash::hash(std::path::Path::new(p), &mut hasher);
    std::hash::Hasher::finish(&hasher)
}

/// The name of a directory from a hash: its sixteen hexadecimal digits.
pub fn nazwa_podkatalogu(skrot: u64) -> (r: String)
    ensures
        r@ == tekst::szesnastkowy(skrot as nat, 16, false),
{
    let mut s = String::new();
    tekst::dopisz_szesnastkowo(&mut s, skrot, 16, false);
    assert(s@ =~= tekst::szesnastkowy(skrot as nat, 16, false));
    s
}

/// Different hashes give different directory names: two sources share a directory
/// only where their whole paths have one hash.
pub proof fn rozne_skroty_rozne_katalogi(s: u64, t: u64)
    requires
        s != t,
    ensures
        tekst::szesnastkowy(s as nat, 16, false) != tekst::szesnastkowy(t as nat, 16, false),
{
    assert(vstd::arithmetic::power::pow(16, 16) == 0x1_0000_0000_0000_0000) by {
        reveal_with_fuel(vstd::arithmetic::power::pow, 17);
    }
    if tekst::szesnastkowy(s as nat, 16, false) == tekst::szesnastkowy(t as nat, 16, false) {
        tekst::szesnastkowy_rozroznia(s as nat, t as nat, 16);
    }
}

/// A directory name for the results of one source, from a hash of its whole
/// path, so that two sources of the same name do not share a directory. Which
/// hash a path has is left to the standard library.
pub fn unikalny_podkatalog(source: &str) -> (r: String)
    ensures
        exists|s: u64|
            call_ensures(skrot_sciezki, (source,), s) && r@ == #[trigger] tekst::szesnastkowy(
                s as nat,
                16,
                false,
            ),
{
    nazwa_podkatalogu(skrot_sciezki(source))
}

/// The path of the first file whose name ends with `_`, the source's name and `.mp4`.
pub open spec fn wynik_autopilota(p: Seq<(String, String)>, sufiks: Seq<char>) -> Option<Seq<char>>
    decreases p.len(),
{
    if p.len() == 0 {
        None
    } else if tekst::konczy_sie_tekstem(p[0].0@, sufiks) {
        Some(p[0].1@)
    } else {
        wynik_autopilota(p.skip(1), sufiks)
    }
}

/// Finds the file that the cascade left for a source, whatever algorithm it is
/// named after. The list holds the names of the files and their paths.
pub fn znajdz_wynik(pliki: &Vec<(String, String)>, nazwa_zrodlowa: &str) -> (r: Option<String>)
    ensures
        tekst::widok(r) == wynik_autopilota(pliki@, "_"@ + nazwa_zrodlowa@ + ".mp4"@),
{
    let mut sufiks = "_".to_owned();
    sufiks.append(nazwa_zrodlowa);
    sufiks.append(".mp4");
    let mut i: usize = 0;
    assert(pliki@.skip(0) =~= pliki@);
    while i < pliki.len()
        invariant
            i <= pliki@.len(),
            sufiks@ == "_"@ + nazwa_zrodlowa@ + ".mp4"@,
            wynik_autopilota(pliki@, sufiks@) == wynik_autopilota(pliki@.skip(i as int), sufiks@),
        decreases pliki@.len() - i,
    {
        assert(pliki@.skip(i as int)[0] == pliki@[i as int]);
        assert(pliki@.skip(i as int).skip(1) =~= pliki@.skip(i + 1));
        let para = &pliki[i];
        if tekst::konczy_sie(para.0.as_str(), sufiks.as_str()) {
            return Some(para.1.clone());
        }
        i = i + 1;
    }
    None
}

/// What the cascade left, from the files in its directory.
pub open spec fn pozostawiony(z: Zdarzenie, nazwa: Seq<char>) -> Option<Seq<char>> {
    match z {
        Zdarzenie::Pliki(Some(p)) => wynik_autopilota(p@, "_"@ + nazwa + ".mp4"@),
        _ => None,
    }
}

/// Hands the file to a learning cascade, as the last resort for a video.
pub struct Mp4AutopilotModule;

impl RepairModule for Mp4AutopilotModule {
    open spec fn identyfikator(&self) -> Seq<char> {
        "mp4_autopilot"@
    }

    open spec fn nazwa(&self) -> Seq<char> {
        "MP4 Autopilot (kaskada ucząca się + Rój, ostatnia szansa)"@
    }

    open spec fn stosuje_sie(&self, ctx: &RepairContext<'_>) -> bool {
        mp4::uszkodzony_mp4(ctx)
    }

    open spec fn naprawa(
        &self,
        zrodlo: Seq<char>,
        ctx: &RepairContext<'_>,
        dawca: Option<Seq<char>>,
        katalog: Seq<char>,
        h: Seq<Zdarzenie>,
    ) -> Nastepny<Naprawa> {
        match sciezka::nazwa(zrodlo) {
            None => Nastepny::Koniec(None),
            Some(n) => if h.len() < 1 {
                Nastepny::Ruch(Ruch::Autopilot(zrodlo))
            } else {
                match (pozostawiony(h[0], n), mp4::wynik(zrodlo, katalog, "autopilot"@)) {
                    (Some(w), Some(c)) => {
                        let gotowe = Nastepny::Koniec(
                            Some(
                                (
                                    c,
                                    "Odzyskano kaskadą ucząca się mp4_doctor (KNN + pula dawców/Rój) po porażce Clone/Native/Recontainer."@,
                                ),
                            ),
                        );
                        if h.len() < 2 {
                            Nastepny::Ruch(Ruch::Przenies(w, c))
                        } else if praca::powiodlo_sie(h[1]) {
                            gotowe
                        } else if h.len() < 3 {
                            Nastepny::Ruch(Ruch::Kopiuj(w, c))
                        } else if !praca::powiodlo_sie(h[2]) {
                            Nastepny::Koniec(None)
                        } else if h.len() < 4 {
                            Nastepny::Ruch(Ruch::Usun(w))
                        } else {
                            gotowe
                        }
                    },
                    _ => Nastepny::Koniec(None),
                }
            },
        }
    }

    open spec fn weryfikacja(&self, plik: Seq<char>, h: Seq<Zdarzenie>) -> Nastepny<Werdykt> {
        weryfikacja::weryfikacja_wideo(plik, h, 0)
    }

    open spec fn odmawia_dekoder(&self, plik: Seq<char>, h: Seq<Zdarzenie>) -> bool {
        false
    }

    fn id(&self) -> (r: &'static str) {
        "mp4_autopilot"
    }

    fn display_name(&self) -> (r: &'static str) {
        "MP4 Autopilot (kaskada ucząca się + Rój, ostatnia szansa)"
    }

    fn applies_to(&self, ctx: &RepairContext<'_>) -> (r: bool) {
        mp4::jest_uszkodzonym_mp4(ctx)
    }

    fn repair(
        &self,
        source: &str,
        _ctx: &RepairContext<'_>,
        _twin: Option<&str>,
        katalog_wyjsciowy: &str,
        h: &Vec<Zdarzenie>,
    ) -> (r: KrokNaprawy) {
        let n = match sciezka::nazwa_pliku(source) {
            None => {
                return KrokNaprawy::Koniec(None);
            },
            Some(n) => n,
        };
        if h.len() < 1 {
            return KrokNaprawy::Wykonaj(Czynnosc::Autopilot(source.to_owned()));
        }
        let znaleziony = match &h[0] {
            Zdarzenie::Pliki(Some(p)) => znajdz_wynik(p, n.as_str()),
            _ => None,
        };
        match (znaleziony, mp4::sciezka_wyniku(source, katalog_wyjsciowy, "autopilot")) {
            (Some(w), Some(c)) => {
                if h.len() < 2 {
                    return KrokNaprawy::Wykonaj(Czynnosc::Przenies(w, c));
                }
                if !praca::udane(&h[1]) {
                    if h.len() < 3 {
                        return KrokNaprawy::Wykonaj(Czynnosc::Kopiuj(w, c));
                    }
                    if !praca::udane(&h[2]) {
                        return KrokNaprawy::Koniec(None);
                    }
                    if h.len() < 4 {
                        return KrokNaprawy::Wykonaj(Czynnosc::Usun(w));
                    }
                }
                KrokNaprawy::Koniec(
                    Some(
                        (
                            c,
                            "Odzyskano kaskadą ucząca się mp4_doctor (KNN + pula dawców/Rój) po porażce Clone/Native/Recontainer.".to_owned(),
                        ),
                    ),
                )
            },
            _ => KrokNaprawy::Koniec(None),
        }
    }

    fn verify(&self, repaired: &str, _ctx: &RepairContext<'_>, h: &Vec<Zdarzenie>) -> (r:
        KrokWeryfikacji) {
        weryfikacja::weryfikuj_wideo(repaired, h, 0)
    }
}

} // verus!
