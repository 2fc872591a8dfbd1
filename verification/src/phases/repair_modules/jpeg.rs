//! JPEG: tables and frame header grafted from a twin copy.

use vstd::prelude::*;

use crate::phases::phase8;
use crate::phases::repair_modules::cel;
use crate::phases::repair_modules::praca::{
    Czynnosc, KrokNaprawy, KrokWeryfikacji, Naprawa, Nastepny, Ruch, Silnik, Werdykt, Zdarzenie,
};
use crate::phases::repair_modules::skladanie;
use crate::phases::repair_modules::weryfikacja;
use crate::phases::repair_modules;
use crate::phases::repair_modules::{RepairContext, RepairModule};
use crate::tekst;

verus! {

/// Extensions of the JPEG format.
pub open spec fn rodzina_jpeg(e: Seq<char>) -> bool {
    e == "jpg"@ || e == "jpeg"@
}

/// Whether an extension belongs to the JPEG format.
pub fn jest_jpeg(e: &str) -> (r: bool)
    ensures
        r == rodzina_jpeg(e@),
{
    tekst::rowne(e, "jpg") || tekst::rowne(e, "jpeg")
}

/// A JPEG with a trace of damage: its header is broken or its end marker is gone.
pub open spec fn uszkodzony_jpeg(ctx: &RepairContext<'_>) -> bool {
    rodzina_jpeg(ctx.ext@) && (ctx.eof_ok == Some(false) || repair_modules::powod_zawiera(
        ctx,
        "Nagłówek"@,
    ))
}

/// Whether a file is a JPEG with a trace of damage.
pub fn jest_uszkodzonym_jpeg(ctx: &RepairContext<'_>) -> (r: bool)
    ensures
        r == uszkodzony_jpeg(ctx),
{
    jest_jpeg(ctx.ext) && (phase8::nie(ctx.eof_ok) || repair_modules::powod_ma(ctx, "Nagłówek"))
}

/// What a graft moved, as the engine describes it from the two files.
pub open spec fn opis_przeszczepu(z: Zdarzenie) -> Seq<char> {
    match z {
        Zdarzenie::Opis(Some(o)) => o@,
        _ => "przeniesiono nagłówek dawcy, dane skanu zachowane z kopii uszkodzonej"@,
    }
}

/// What a graft moved.
pub fn opisz_przeszczep(z: &Zdarzenie) -> (r: String)
    ensures
        r@ == opis_przeszczepu(*z),
{
    match z {
        Zdarzenie::Opis(Some(o)) => o.clone(),
        _ => "przeniesiono nagłówek dawcy, dane skanu zachowane z kopii uszkodzonej".to_owned(),
    }
}

/// Grafts the tables of the twin copy onto the scan data of the source.
pub struct JpegCloneModule;

impl RepairModule for JpegCloneModule {
    open spec fn identyfikator(&self) -> Seq<char> {
        "jpeg_clone"@
    }

    open spec fn nazwa(&self) -> Seq<char> {
        "JPEG przeszczep tablic DQT/DHT/SOF z bliźniaczej kopii"@
    }

    open spec fn stosuje_sie(&self, ctx: &RepairContext<'_>) -> bool {
        uszkodzony_jpeg(ctx)
    }

    open spec fn naprawa(
        &self,
        zrodlo: Seq<char>,
        ctx: &RepairContext<'_>,
        dawca: Option<Seq<char>>,
        katalog: Seq<char>,
        h: Seq<Zdarzenie>,
    ) -> Nastepny<Naprawa> {
        match (dawca, cel::cel(zrodlo, katalog, "_repaired_jpeg"@, cel::rozszerzenie_lub(zrodlo, "jpg"@))) {
            (Some(d), Some(c)) => match skladanie::praca_silnika(
                Silnik::JpegSplice,
                zrodlo,
                Some(d),
                c,
                h,
                0,
            ) {
                Err(n) => n,
                Ok(o) => if h.len() < 2 {
                    Nastepny::Ruch(Ruch::OpiszPrzeszczep(zrodlo, d))
                } else {
                    Nastepny::Koniec(
                        Some((c, opis_przeszczepu(h[1]) + " (dawca: "@ + d + ")"@)),
                    )
                },
            },
            _ => Nastepny::Koniec(None),
        }
    }

    open spec fn weryfikacja(&self, plik: Seq<char>, h: Seq<Zdarzenie>) -> Nastepny<Werdykt> {
        weryfikacja::weryfikacja_pliku(plik, h)
    }

    open spec fn odmawia_dekoder(&self, plik: Seq<char>, h: Seq<Zdarzenie>) -> bool {
        weryfikacja::odmowa_dekodera(plik, h)
    }

    fn id(&self) -> (r: &'static str) {
        "jpeg_clone"
    }

    fn display_name(&self) -> (r: &'static str) {
        "JPEG przeszczep tablic DQT/DHT/SOF z bliźniaczej kopii"
    }

    fn applies_to(&self, ctx: &RepairContext<'_>) -> (r: bool) {
        jest_uszkodzonym_jpeg(ctx)
    }

    fn repair(
        &self,
        source: &str,
        _ctx: &RepairContext<'_>,
        twin: Option<&str>,
        katalog_wyjsciowy: &str,
        h: &Vec<Zdarzenie>,
    ) -> (r: KrokNaprawy) {
        let ext = cel::rozszerzenie_zrodla(source, "jpg");
        match (twin, cel::wyznacz_cel(source, katalog_wyjsciowy, "_repaired_jpeg", ext.as_str())) {
            (Some(d), Some(c)) => match skladanie::uruchom_silnik(
                Silnik::JpegSplice,
                source,
                Some(d),
                c.as_str(),
                h,
                0,
            ) {
                Err(n) => n,
                Ok(_) => {
                    if h.len() < 2 {
                        KrokNaprawy::Wykonaj(
                            Czynnosc::OpiszPrzeszczep(source.to_owned(), d.to_owned()),
                        )
                    } else {
                        let mut opis = opisz_przeszczep(&h[1]);
                        opis.append(" (dawca: ");
                        opis.append(d);
                        opis.append(")");
                        KrokNaprawy::Koniec(Some((c, opis)))
                    }
                },
            },
            _ => KrokNaprawy::Koniec(None),
        }
    }

    fn verify(&self, repaired: &str, _ctx: &RepairContext<'_>, h: &Vec<Zdarzenie>) -> (r:
        KrokWeryfikacji) {
        weryfikacja::weryfikuj_naprawiony_plik(repaired, h)
    }
}

} // verus!
