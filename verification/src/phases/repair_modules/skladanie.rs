//! Repairs that put a file together from two copies.

use vstd::prelude::*;

use crate::bajty;
use crate::phases::repair_modules::praca;
use crate::phases::repair_modules::praca::{
    Czynnosc, KrokNaprawy, Naprawa, Nastepny, Ruch, Silnik, Zdarzenie,
};
use crate::sciezka;
use crate::tekst;

verus! {

/// The largest copy that is read whole to be put together: 512 MB.
pub const LIMIT_W_RAM: u64 = 536870912;

/// The copy has a size, and it is within the memory limit.
pub open spec fn miesci_sie(z: Zdarzenie) -> bool {
    z matches Zdarzenie::Rozmiar(Ok(n)) && n <= LIMIT_W_RAM
}

/// Whether the copy has a size within the memory limit.
pub fn w_limicie(z: &Zdarzenie) -> (r: bool)
    ensures
        r == miesci_sie(*z),
{
    match z {
        Zdarzenie::Rozmiar(Ok(n)) => *n <= LIMIT_W_RAM,
        _ => false,
    }
}

/// The copy was read.
pub open spec fn wczytany(z: Zdarzenie) -> bool {
    z matches Zdarzenie::Bajty(Ok(_))
}

/// Whether the copy was read.
pub fn jest_wczytany(z: &Zdarzenie) -> (r: bool)
    ensures
        r == wczytany(*z),
{
    match z {
        Zdarzenie::Bajty(Ok(_)) => true,
        _ => false,
    }
}

/// The bytes to write, from the answer at position `k` on: create the directory
/// of the target, write it, and report it; a file that was not written whole is
/// removed.
pub open spec fn zapis(
    cel: Seq<char>,
    dane: Seq<u8>,
    opis: Seq<char>,
    h: Seq<Zdarzenie>,
    k: int,
) -> Nastepny<Naprawa> {
    if h.len() <= k && sciezka::rodzic(cel) is Some {
        Nastepny::Ruch(Ruch::UtworzKatalog(sciezka::rodzic(cel)->0))
    } else if sciezka::rodzic(cel) is Some && !praca::powiodlo_sie(h[k]) {
        Nastepny::Koniec(None)
    } else {
        let j = if sciezka::rodzic(cel) is Some {
            k + 1
        } else {
            k
        };
        if h.len() <= j {
            Nastepny::Ruch(Ruch::Zapisz(cel, dane))
        } else if praca::powiodlo_sie(h[j]) {
            Nastepny::Koniec(Some((cel, opis)))
        } else if h.len() <= j + 1 {
            Nastepny::Ruch(Ruch::Usun(cel))
        } else {
            Nastepny::Koniec(None)
        }
    }
}

/// The next step of writing a result, from the answer at position `k` on.
pub fn zapisz_wynik(cel: String, dane: &Vec<u8>, opis: String, h: &Vec<Zdarzenie>, k: usize) -> (r:
    KrokNaprawy)
    requires
        k + 2 <= usize::MAX,
    ensures
        r@ == zapis(cel@, dane@, opis@, h@, k as int),
{
    let mut j: usize = k;
    match sciezka::katalog(cel.as_str()) {
        Some(d) => {
            if h.len() <= k {
                return KrokNaprawy::Wykonaj(Czynnosc::UtworzKatalog(d));
            }
            if !praca::udane(&h[k]) {
                return KrokNaprawy::Koniec(None);
            }
            j = k + 1;
        },
        None => {},
    }
    if h.len() <= j {
        KrokNaprawy::Wykonaj(Czynnosc::Zapisz(cel, bajty::kopia(dane)))
    } else if praca::udane(&h[j]) {
        KrokNaprawy::Koniec(Some((cel, opis)))
    } else if h.len() <= j + 1 {
        KrokNaprawy::Wykonaj(Czynnosc::Usun(cel))
    } else {
        KrokNaprawy::Koniec(None)
    }
}

/// Putting a file together in memory. Both copies must be there and within the
/// memory limit; they are read, the engine builds the result, and it is written.
pub open spec fn skladanie(
    silnik: Silnik,
    zrodlo: Seq<char>,
    dawca: Option<Seq<char>>,
    cel: Option<Seq<char>>,
    przed: Seq<char>,
    po: Seq<char>,
    h: Seq<Zdarzenie>,
) -> Nastepny<Naprawa> {
    match dawca {
        None => Nastepny::Koniec(None),
        Some(d) => if h.len() < 1 {
            Nastepny::Ruch(Ruch::Zmierz(zrodlo))
        } else if !miesci_sie(h[0]) {
            Nastepny::Koniec(None)
        } else if h.len() < 2 {
            Nastepny::Ruch(Ruch::Zmierz(d))
        } else if !miesci_sie(h[1]) {
            Nastepny::Koniec(None)
        } else if h.len() < 3 {
            Nastepny::Ruch(Ruch::Wczytaj(zrodlo))
        } else if !wczytany(h[2]) {
            Nastepny::Koniec(None)
        } else if h.len() < 4 {
            Nastepny::Ruch(Ruch::Wczytaj(d))
        } else if !wczytany(h[3]) {
            Nastepny::Koniec(None)
        } else if h.len() < 5 {
            Nastepny::Ruch(Ruch::Zloz(silnik))
        } else {
            match (h[4], cel) {
                (Zdarzenie::Zlozone(Some(b)), Some(c)) => zapis(c, b@, przed + d + po, h, 5),
                _ => Nastepny::Koniec(None),
            }
        },
    }
}

/// The next step of putting a file together in memory.
pub fn zloz_z_dwoch(
    silnik: Silnik,
    zrodlo: &str,
    dawca: Option<&str>,
    cel: Option<String>,
    przed: &str,
    po: &str,
    h: &Vec<Zdarzenie>,
) -> (r: KrokNaprawy)
    ensures
        r@ == skladanie(
            silnik,
            zrodlo@,
            tekst::widok_ref(dawca),
            tekst::widok(cel),
            przed@,
            po@,
            h@,
        ),
{
    let d = match dawca {
        None => {
            return KrokNaprawy::Koniec(None);
        },
        Some(d) => d,
    };
    if h.len() < 1 {
        return KrokNaprawy::Wykonaj(Czynnosc::Zmierz(zrodlo.to_owned()));
    }
    if !w_limicie(&h[0]) {
        return KrokNaprawy::Koniec(None);
    }
    if h.len() < 2 {
        return KrokNaprawy::Wykonaj(Czynnosc::Zmierz(d.to_owned()));
    }
    if !w_limicie(&h[1]) {
        return KrokNaprawy::Koniec(None);
    }
    if h.len() < 3 {
        return KrokNaprawy::Wykonaj(Czynnosc::Wczytaj(zrodlo.to_owned()));
    }
    if !jest_wczytany(&h[2]) {
        return KrokNaprawy::Koniec(None);
    }
    if h.len() < 4 {
        return KrokNaprawy::Wykonaj(Czynnosc::Wczytaj(d.to_owned()));
    }
    if !jest_wczytany(&h[3]) {
        return KrokNaprawy::Koniec(None);
    }
    if h.len() < 5 {
        return KrokNaprawy::Wykonaj(Czynnosc::Zloz(silnik));
    }
    match &h[4] {
        Zdarzenie::Zlozone(Some(b)) => match cel {
            Some(c) => {
                let mut opis = przed.to_owned();
                opis.append(d);
                opis.append(po);
                zapisz_wynik(c, b, opis, h, 5)
            },
            None => KrokNaprawy::Koniec(None),
        },
        _ => KrokNaprawy::Koniec(None),
    }
}

/// Work that an engine does itself, from the answer at position `k` on: it
/// reads the source and the donor and writes the target. A target that it left
/// behind when it failed is removed.
pub open spec fn praca_silnika(
    silnik: Silnik,
    zrodlo: Seq<char>,
    dawca: Option<Seq<char>>,
    cel: Seq<char>,
    h: Seq<Zdarzenie>,
    k: int,
) -> Result<Seq<char>, Nastepny<Naprawa>> {
    if h.len() <= k {
        Err(Nastepny::Ruch(Ruch::Uruchom(silnik, zrodlo, dawca, cel)))
    } else {
        match h[k] {
            Zdarzenie::Opis(Some(o)) => Ok(o@),
            _ => if h.len() <= k + 1 {
                Err(Nastepny::Ruch(Ruch::Usun(cel)))
            } else {
                Err(Nastepny::Koniec(None))
            },
        }
    }
}

/// What the engine says of its work, or what comes instead.
pub fn uruchom_silnik(
    silnik: Silnik,
    zrodlo: &str,
    dawca: Option<&str>,
    cel: &str,
    h: &Vec<Zdarzenie>,
    k: usize,
) -> (r: Result<String, KrokNaprawy>)
    requires
        k + 2 <= usize::MAX,
    ensures
        match r {
            Ok(o) => praca_silnika(
                silnik,
                zrodlo@,
                tekst::widok_ref(dawca),
                cel@,
                h@,
                k as int,
            ) == Ok::<Seq<char>, Nastepny<Naprawa>>(o@),
            Err(n) => praca_silnika(
                silnik,
                zrodlo@,
                tekst::widok_ref(dawca),
                cel@,
                h@,
                k as int,
            ) == Err::<Seq<char>, Nastepny<Naprawa>>(n@),
        },
{
    if h.len() <= k {
        let d = match dawca {
            Some(d) => Some(d.to_owned()),
            None => None,
        };
        return Err(
            KrokNaprawy::Wykonaj(
                Czynnosc::Uruchom(silnik, zrodlo.to_owned(), d, cel.to_owned()),
            ),
        );
    }
    match &h[k] {
        Zdarzenie::Opis(Some(o)) => Ok(o.clone()),
        _ => {
            if h.len() <= k + 1 {
                Err(KrokNaprawy::Wykonaj(Czynnosc::Usun(cel.to_owned())))
            } else {
                Err(KrokNaprawy::Koniec(None))
            }
        },
    }
}

} // verus!
