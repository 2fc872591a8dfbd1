//! MP4 and MOV: three strategies of growing invasiveness.

use vstd::prelude::*;

use crate::phases::phase8;
use crate::phases::repair_modules::cel;
use crate::phases::repair_modules::praca::{
    Czynnosc, KrokNaprawy, KrokWeryfikacji, Naprawa, Nastepny, Ruch, Silnik, Werdykt, Zdarzenie,
};
use crate::phases::repair_modules::skladanie;
use crate::phases::repair_modules::weryfikacja;
use crate::phases::repair_modules;
use crate::phases::repair_modules::{RepairContext, RepairModule};
use crate::tekst;

verus! {

/// Raw H.264 streams without a container.
pub open spec fn surowy_h264(e: Seq<char>) -> bool {
    e == "h264"@ || e == "264"@ || e == "avc"@
}

/// Whether an extension belongs to a raw H.264 stream.
pub fn jest_surowym_h264(e: &str) -> (r: bool)
    ensures
        r == surowy_h264(e@),
{
    tekst::rowne(e, "h264") || tekst::rowne(e, "264") || tekst::rowne(e, "avc")
}

/// A video container with a trace of damage: its structure is broken, its end
/// marker is gone, or its header is destroyed.
pub open spec fn uszkodzony_mp4(ctx: &RepairContext<'_>) -> bool {
    weryfikacja::rodzina_mp4(ctx.ext@) && (ctx.video_ok == Some(false) || ctx.eof_ok == Some(false)
        || repair_modules::powod_zawiera(ctx, "Nagłówek"@))
}

/// Whether a file is a video container with a trace of damage.
pub fn jest_uszkodzonym_mp4(ctx: &RepairContext<'_>) -> (r: bool)
    ensures
        r == uszkodzony_mp4(ctx),
{
    weryfikacja::jest_mp4(ctx.ext) && (phase8::nie(ctx.video_ok) || phase8::nie(ctx.eof_ok)
        || repair_modules::powod_ma(ctx, "Nagłówek"))
}

/// The path of an engine's result, with the extension of the source.
pub open spec fn wynik(zrodlo: Seq<char>, katalog: Seq<char>, silnik: Seq<char>) -> Option<
    Seq<char>,
> {
    cel::cel(zrodlo, katalog, "_repaired_"@ + silnik, cel::rozszerzenie_lub(zrodlo, "mp4"@))
}

/// The path of an engine's result, under a name of its own, with the extension
/// of the source.
pub fn sciezka_wyniku(source: &str, katalog_wyjsciowy: &str, sufiks: &str) -> (r: Option<String>)
    ensures
        tekst::widok(r) == wynik(source@, katalog_wyjsciowy@, sufiks@),
{
    let ext = cel::rozszerzenie_zrodla(source, "mp4");
    sciezka_wyniku_z_rozszerzeniem(source, katalog_wyjsciowy, sufiks, ext.as_str())
}

/// The path of an engine's result with a given extension.
pub fn sciezka_wyniku_z_rozszerzeniem(
    source: &str,
    katalog_wyjsciowy: &str,
    sufiks: &str,
    ext: &str,
) -> (r: Option<String>)
    ensures
        tekst::widok(r) == cel::cel(source@, katalog_wyjsciowy@, "_repaired_"@ + sufiks@, ext@),
{
    let mut s = "_repaired_".to_owned();
    s.append(sufiks);
    cel::wyznacz_cel(source, katalog_wyjsciowy, s.as_str(), ext)
}

/// Rebuilds a container from the units of a raw stream.
pub struct Mp4NativeModule;

impl RepairModule for Mp4NativeModule {
    open spec fn identyfikator(&self) -> Seq<char> {
        "mp4_native"@
    }

    open spec fn nazwa(&self) -> Seq<char> {
        "MP4 Zero-Donor (odbudowa moov od zera, bez dawcy)"@
    }

    open spec fn stosuje_sie(&self, ctx: &RepairContext<'_>) -> bool {
        surowy_h264(ctx.ext@) || uszkodzony_mp4(ctx)
    }

    open spec fn naprawa(
        &self,
        zrodlo: Seq<char>,
        ctx: &RepairContext<'_>,
        dawca: Option<Seq<char>>,
        katalog: Seq<char>,
        h: Seq<Zdarzenie>,
    ) -> Nastepny<Naprawa> {
        match cel::cel(zrodlo, katalog, "_repaired_"@ + "native"@, "mp4"@) {
            Some(c) => match skladanie::praca_silnika(Silnik::Mp4Native, zrodlo, None, c, h, 0) {
                Err(n) => n,
                Ok(o) => Nastepny::Koniec(
                    Some((c, "Odbudowano kontener MP4 od zera (Zero-Donor, bez dawcy)."@)),
                ),
            },
            None => Nastepny::Koniec(None),
        }
    }

    open spec fn weryfikacja(&self, plik: Seq<char>, h: Seq<Zdarzenie>) -> Nastepny<Werdykt> {
        weryfikacja::weryfikacja_wideo(plik, h, 0)
    }

    open spec fn odmawia_dekoder(&self, plik: Seq<char>, h: Seq<Zdarzenie>) -> bool {
        false
    }

    fn id(&self) -> (r: &'static str) {
        "mp4_native"
    }

    fn display_name(&self) -> (r: &'static str) {
        "MP4 Zero-Donor (odbudowa moov od zera, bez dawcy)"
    }

    fn applies_to(&self, ctx: &RepairContext<'_>) -> (r: bool) {
        jest_surowym_h264(ctx.ext) || jest_uszkodzonym_mp4(ctx)
    }

    fn repair(
        &self,
        source: &str,
        _ctx: &RepairContext<'_>,
        _twin: Option<&str>,
        katalog_wyjsciowy: &str,
        h: &Vec<Zdarzenie>,
    ) -> (r: KrokNaprawy) {
        match sciezka_wyniku_z_rozszerzeniem(source, katalog_wyjsciowy, "native", "mp4") {
            Some(c) => match skladanie::uruchom_silnik(
                Silnik::Mp4Native,
                source,
                None,
                c.as_str(),
                h,
                0,
            ) {
                Err(n) => n,
                Ok(_) => KrokNaprawy::Koniec(
                    Some((c, "Odbudowano kontener MP4 od zera (Zero-Donor, bez dawcy).".to_owned())),
                ),
            },
            None => KrokNaprawy::Koniec(None),
        }
    }

    fn verify(&self, repaired: &str, _ctx: &RepairContext<'_>, h: &Vec<Zdarzenie>) -> (r:
        KrokWeryfikacji) {
        weryfikacja::weryfikuj_wideo(repaired, h, 0)
    }
}

/// The media data of the two copies differ in size, so they are two recordings.
pub open spec fn inne_nagranie(z: Zdarzenie) -> bool {
    z matches Zdarzenie::Trojstan(Some(false))
}

/// Whether the media data of the two copies differ in size.
pub fn jest_innym_nagraniem(z: &Zdarzenie) -> (r: bool)
    ensures
        r == inne_nagranie(*z),
{
    match z {
        Zdarzenie::Trojstan(Some(b)) => !*b,
        _ => false,
    }
}

/// Grafts the `moov` atom of the twin copy and shifts its tables of addresses.
pub struct Mp4CloneModule;

impl RepairModule for Mp4CloneModule {
    open spec fn identyfikator(&self) -> Seq<char> {
        "mp4_clone"@
    }

    open spec fn nazwa(&self) -> Seq<char> {
        "MP4 przeszczep moov z bliźniaczej kopii (stco/co64)"@
    }

    open spec fn stosuje_sie(&self, ctx: &RepairContext<'_>) -> bool {
        uszkodzony_mp4(ctx)
    }

    open spec fn naprawa(
        &self,
        zrodlo: Seq<char>,
        ctx: &RepairContext<'_>,
        dawca: Option<Seq<char>>,
        katalog: Seq<char>,
        h: Seq<Zdarzenie>,
    ) -> Nastepny<Naprawa> {
        match dawca {
            None => Nastepny::Koniec(None),
            Some(d) => if h.len() < 1 {
                Nastepny::Ruch(Ruch::PorownajMdat(zrodlo, d))
            } else if inne_nagranie(h[0]) {
                Nastepny::Koniec(None)
            } else {
                match wynik(zrodlo, katalog, "clone"@) {
                    None => Nastepny::Koniec(None),
                    Some(c) => match skladanie::praca_silnika(
                        Silnik::Mp4Clone,
                        zrodlo,
                        Some(d),
                        c,
                        h,
                        1,
                    ) {
                        Err(n) => n,
                        Ok(_) => Nastepny::Koniec(
                            Some(
                                (
                                    c,
                                    "Przeszczepiono moov od dawcy "@ + d
                                        + " z korektą tablic stco/co64."@,
                                ),
                            ),
                        ),
                    },
                }
            },
        }
    }

    open spec fn weryfikacja(&self, plik: Seq<char>, h: Seq<Zdarzenie>) -> Nastepny<Werdykt> {
        weryfikacja::weryfikacja_wideo(plik, h, 0)
    }

    open spec fn odmawia_dekoder(&self, plik: Seq<char>, h: Seq<Zdarzenie>) -> bool {
        false
    }

    fn id(&self) -> (r: &'static str) {
        "mp4_clone"
    }

    fn display_name(&self) -> (r: &'static str) {
        "MP4 przeszczep moov z bliźniaczej kopii (stco/co64)"
    }

    fn applies_to(&self, ctx: &RepairContext<'_>) -> (r: bool) {
        jest_uszkodzonym_mp4(ctx)
    }

    fn repair(
        &self,
        source: &str,
        _ctx: &RepairContext<'_>,
        twin: Option<&str>,
        katalog_wyjsciowy: &str,
        h: &Vec<Zdarzenie>,
    ) -> (r: KrokNaprawy) {
        let d = match twin {
            None => {
                return KrokNaprawy::Koniec(None);
            },
            Some(d) => d,
        };
        if h.len() < 1 {
            return KrokNaprawy::Wykonaj(
                Czynnosc::PorownajMdat(source.to_owned(), d.to_owned()),
            );
        }
        if jest_innym_nagraniem(&h[0]) {
            return KrokNaprawy::Koniec(None);
        }
        match sciezka_wyniku(source, katalog_wyjsciowy, "clone") {
            None => KrokNaprawy::Koniec(None),
            Some(c) => match skladanie::uruchom_silnik(
                Silnik::Mp4Clone,
                source,
                Some(d),
                c.as_str(),
                h,
                1,
            ) {
                Err(n) => n,
                Ok(_) => {
                    let mut opis = "Przeszczepiono moov od dawcy ".to_owned();
                    opis.append(d);
                    opis.append(" z korektą tablic stco/co64.");
                    KrokNaprawy::Koniec(Some((c, opis)))
                },
            },
        }
    }

    fn verify(&self, repaired: &str, _ctx: &RepairContext<'_>, h: &Vec<Zdarzenie>) -> (r:
        KrokWeryfikacji) {
        weryfikacja::weryfikuj_wideo(repaired, h, 0)
    }
}

/// Passes the material through `ffmpeg`. Without that program it does not apply.
pub struct Mp4RecontainerModule {
    /// `ffmpeg` is there on this machine.
    pub ffmpeg: bool,
}

impl RepairModule for Mp4RecontainerModule {
    open spec fn identyfikator(&self) -> Seq<char> {
        "mp4_recontainer"@
    }

    open spec fn nazwa(&self) -> Seq<char> {
        "MP4 przepakowanie ffmpegiem (korekta dryfu A/V)"@
    }

    open spec fn stosuje_sie(&self, ctx: &RepairContext<'_>) -> bool {
        self.ffmpeg && uszkodzony_mp4(ctx)
    }

    open spec fn naprawa(
        &self,
        zrodlo: Seq<char>,
        ctx: &RepairContext<'_>,
        dawca: Option<Seq<char>>,
        katalog: Seq<char>,
        h: Seq<Zdarzenie>,
    ) -> Nastepny<Naprawa> {
        match wynik(zrodlo, katalog, "recontainer"@) {
            Some(c) => match skladanie::praca_silnika(Silnik::Mp4Recontainer, zrodlo, None, c, h, 0) {
                Err(n) => n,
                Ok(o) => Nastepny::Koniec(Some((c, "Przepakowano kontener ffmpegiem z korektą dryfu A/V."@))),
            },
            None => Nastepny::Koniec(None),
        }
    }

    open spec fn weryfikacja(&self, plik: Seq<char>, h: Seq<Zdarzenie>) -> Nastepny<Werdykt> {
        weryfikacja::weryfikacja_wideo(plik, h, 0)
    }

    open spec fn odmawia_dekoder(&self, plik: Seq<char>, h: Seq<Zdarzenie>) -> bool {
        false
    }

    fn id(&self) -> (r: &'static str) {
        "mp4_recontainer"
    }

    fn display_name(&self) -> (r: &'static str) {
        "MP4 przepakowanie ffmpegiem (korekta dryfu A/V)"
    }

    fn applies_to(&self, ctx: &RepairContext<'_>) -> (r: bool) {
        self.ffmpeg && jest_uszkodzonym_mp4(ctx)
    }

    fn repair(
        &self,
        source: &str,
        _ctx: &RepairContext<'_>,
        _twin: Option<&str>,
        katalog_wyjsciowy: &str,
        h: &Vec<Zdarzenie>,
    ) -> (r: KrokNaprawy) {
        match sciezka_wyniku(source, katalog_wyjsciowy, "recontainer") {
            Some(c) => match skladanie::uruchom_silnik(
                Silnik::Mp4Recontainer,
                source,
                None,
                c.as_str(),
                h,
                0,
            ) {
                Err(n) => n,
                Ok(_) => KrokNaprawy::Koniec(
                    Some((c, "Przepakowano kontener ffmpegiem z korektą dryfu A/V.".to_owned())),
                ),
            },
            None => KrokNaprawy::Koniec(None),
        }
    }

    fn verify(&self, repaired: &str, _ctx: &RepairContext<'_>, h: &Vec<Zdarzenie>) -> (r:
        KrokWeryfikacji) {
        weryfikacja::weryfikuj_wideo(repaired, h, 0)
    }
}

} // verus!
