//! The mapping table: for a phoneme and the phoneme that follows it, or for
//! a phoneme alone, the katakana that renders them.
//!
//! The table is data. Each row belongs to one leading phoneme and is keyed by
//! the following vowel, or by `None` for the phoneme standing alone. Every
//! row has an entry for `None`; the rows of the consonants have one for each
//! vowel as well, those of the vowels only for the adjacencies that occur.

use crate::phoneme::Phoneme;
use vstd::prelude::*;

verus! {

/// The row of `AA`.
pub open spec fn row_aa(inner: Option<Phoneme>) -> Option<Seq<char>> {
    match inner {
        None => Some("アー"@),
        Some(Phoneme::Iy) => Some("アイ"@),
        Some(Phoneme::Uw) => Some("オウ"@),
        _ => None,
    }
}

/// The row of `AH`.
pub open spec fn row_ah(inner: Option<Phoneme>) -> Option<Seq<char>> {
    match inner {
        None => Some("ア"@),
        Some(Phoneme::Er) => Some("アエル"@),
        Some(Phoneme::Ow) => Some("アッアウ"@),
        _ => None,
    }
}

/// The row of `AE`.
pub open spec fn row_ae(inner: Option<Phoneme>) -> Option<Seq<char>> {
    match inner {
        None => Some("ア"@),
        _ => None,
    }
}

/// The row of `AW`.
pub open spec fn row_aw(inner: Option<Phoneme>) -> Option<Seq<char>> {
    match inner {
        None => Some("オウ"@),
        Some(Phoneme::Ah) => Some("アウア"@),
        Some(Phoneme::Er) => Some("アワー"@),
        Some(Phoneme::Iy) => Some("アオイ"@),
        Some(Phoneme::Ih) => Some("アウィ"@),
        Some(Phoneme::Uw) => Some("アオウ"@),
        _ => None,
    }
}

/// The row of `AY`.
pub open spec fn row_ay(inner: Option<Phoneme>) -> Option<Seq<char>> {
    match inner {
        None => Some("アイ"@),
        Some(Phoneme::Aa) => Some("アイ"@),
        Some(Phoneme::Ah) => Some("アイア"@),
        Some(Phoneme::Ae) => Some("アイェ"@),
        Some(Phoneme::Aw) => Some("アイオウ"@),
        Some(Phoneme::Er) => Some("アイア"@),
        Some(Phoneme::Iy) => Some("ウイェ"@),
        Some(Phoneme::Ih) => Some("アイイ"@),
        Some(Phoneme::Uw) => Some("アユ"@),
        Some(Phoneme::Eh) => Some("アイ"@),
        Some(Phoneme::Ey) => Some("ウイェ"@),
        Some(Phoneme::Ow) => Some("アイオ"@),
        _ => None,
    }
}

/// The row of `ER`.
pub open spec fn row_er(inner: Option<Phoneme>) -> Option<Seq<char>> {
    match inner {
        None => Some("アー"@),
        Some(Phoneme::Aa) => Some("ア"@),
        Some(Phoneme::Ah) => Some("ア"@),
        Some(Phoneme::Ae) => Some("アラ"@),
        Some(Phoneme::Aw) => Some("アラウ"@),
        Some(Phoneme::Ay) => Some("アライ"@),
        Some(Phoneme::Er) => Some("アー"@),
        Some(Phoneme::Iy) => Some("エリ"@),
        Some(Phoneme::Ih) => Some("エリ"@),
        Some(Phoneme::Uh) => Some("オロウ"@),
        Some(Phoneme::Uw) => Some("ウル"@),
        Some(Phoneme::Eh) => Some("オレ"@),
        Some(Phoneme::Ey) => Some("アレイ"@),
        Some(Phoneme::Ao) => Some("アロ"@),
        Some(Phoneme::Ow) => Some("アロ"@),
        Some(Phoneme::Oy) => Some("アロイ"@),
        _ => None,
    }
}

/// The row of `IY`.
pub open spec fn row_iy(inner: Option<Phoneme>) -> Option<Seq<char>> {
    match inner {
        None => Some("イー"@),
        Some(Phoneme::Aa) => Some("イア"@),
        Some(Phoneme::Ah) => Some("イア"@),
        Some(Phoneme::Ae) => Some("イア"@),
        Some(Phoneme::Er) => Some("アイヤー"@),
        Some(Phoneme::Iy) => Some("イイ"@),
        Some(Phoneme::Ih) => Some("ー"@),
        Some(Phoneme::Uw) => Some("イウ"@),
        Some(Phoneme::Eh) => Some("イエ"@),
        Some(Phoneme::Ey) => Some("イー"@),
        Some(Phoneme::Ao) => Some("イオ"@),
        Some(Phoneme::Ow) => Some("イオ"@),
        _ => None,
    }
}

/// The row of `IH`.
pub open spec fn row_ih(inner: Option<Phoneme>) -> Option<Seq<char>> {
    match inner {
        None => Some("イ"@),
        _ => None,
    }
}

/// The row of `UH`.
pub open spec fn row_uh(inner: Option<Phoneme>) -> Option<Seq<char>> {
    match inner {
        None => Some("ウ"@),
        Some(Phoneme::Ah) => Some("ウー"@),
        _ => None,
    }
}

/// The row of `UW`.
pub open spec fn row_uw(inner: Option<Phoneme>) -> Option<Seq<char>> {
    match inner {
        None => Some("ウ"@),
        Some(Phoneme::Aa) => Some("ウア"@),
        Some(Phoneme::Ah) => Some("ウー"@),
        Some(Phoneme::Er) => Some("ウアー"@),
        Some(Phoneme::Iy) => Some("ウイ"@),
        Some(Phoneme::Ih) => Some("ウエ"@),
        Some(Phoneme::Ey) => Some("ウエ"@),
        _ => None,
    }
}

/// The row of `EH`.
pub open spec fn row_eh(inner: Option<Phoneme>) -> Option<Seq<char>> {
    match inner {
        None => Some("エ"@),
        Some(Phoneme::Ow) => Some("エオ"@),
        _ => None,
    }
}

/// The row of `EY`.
pub open spec fn row_ey(inner: Option<Phoneme>) -> Option<Seq<char>> {
    match inner {
        None => Some("エイ"@),
        Some(Phoneme::Aa) => Some("エイアー"@),
        Some(Phoneme::Ah) => Some("エイ"@),
        Some(Phoneme::Aw) => Some("アヨウ"@),
        Some(Phoneme::Er) => Some("エアー"@),
        Some(Phoneme::Iy) => Some("エイ"@),
        Some(Phoneme::Eh) => Some("エイ"@),
        Some(Phoneme::Ey) => Some("アー"@),
        Some(Phoneme::Ao) => Some("エイオ"@),
        Some(Phoneme::Ow) => Some("アオ"@),
        _ => None,
    }
}

/// The row of `AO`.
pub open spec fn row_ao(inner: Option<Phoneme>) -> Option<Seq<char>> {
    match inner {
        None => Some("オ"@),
        Some(Phoneme::Eh) => Some("アオエ"@),
        _ => None,
    }
}

/// The row of `OW`.
pub open spec fn row_ow(inner: Option<Phoneme>) -> Option<Seq<char>> {
    match inner {
        None => Some("オー"@),
        Some(Phoneme::Aa) => Some("オア"@),
        Some(Phoneme::Ah) => Some("オア"@),
        Some(Phoneme::Ae) => Some("オエ"@),
        Some(Phoneme::Iy) => Some("オイ"@),
        Some(Phoneme::Ih) => Some("オーウィ"@),
        Some(Phoneme::Uh) => Some("オウ"@),
        Some(Phoneme::Eh) => Some("オフエ"@),
        Some(Phoneme::Ey) => Some("オウエイ"@),
        Some(Phoneme::Ao) => Some("オウォ"@),
        _ => None,
    }
}

/// The row of `OY`.
pub open spec fn row_oy(inner: Option<Phoneme>) -> Option<Seq<char>> {
    match inner {
        None => Some("オイ"@),
        Some(Phoneme::Er) => Some("オイヤー"@),
        Some(Phoneme::Ih) => Some("オイエ"@),
        Some(Phoneme::Ow) => Some("オヨ"@),
        _ => None,
    }
}

/// The row of `ZH`.
pub open spec fn row_zh(inner: Option<Phoneme>) -> Option<Seq<char>> {
    match inner {
        None => Some("ジュ"@),
        Some(Phoneme::Aa) => Some("ジャ"@),
        Some(Phoneme::Ah) => Some("ジョ"@),
        Some(Phoneme::Ae) => Some("ジャ"@),
        Some(Phoneme::Aw) => Some("ジャ"@),
        Some(Phoneme::Ay) => Some("ジャイ"@),
        Some(Phoneme::Er) => Some("ジェ"@),
        Some(Phoneme::Iy) => Some("ジ"@),
        Some(Phoneme::Ih) => Some("ジ"@),
        Some(Phoneme::Uh) => Some("ジュ"@),
        Some(Phoneme::Uw) => Some("ジュ"@),
        Some(Phoneme::Eh) => Some("ジェ"@),
        Some(Phoneme::Ey) => Some("ジェ"@),
        Some(Phoneme::Ao) => Some("ジョ"@),
        Some(Phoneme::Ow) => Some("ジョ"@),
        Some(Phoneme::Oy) => Some("ジョ"@),
        _ => None,
    }
}

/// The row of `DH`.
pub open spec fn row_dh(inner: Option<Phoneme>) -> Option<Seq<char>> {
    match inner {
        None => Some("ズ"@),
        Some(Phoneme::Aa) => Some("ザ"@),
        Some(Phoneme::Ah) => Some("ザ"@),
        Some(Phoneme::Ae) => Some("ザ"@),
        Some(Phoneme::Aw) => Some("ザ"@),
        Some(Phoneme::Ay) => Some("ザイ"@),
        Some(Phoneme::Er) => Some("ザー"@),
        Some(Phoneme::Iy) => Some("ジ"@),
        Some(Phoneme::Ih) => Some("ジ"@),
        Some(Phoneme::Uh) => Some("ズ"@),
        Some(Phoneme::Uw) => Some("ズ"@),
        Some(Phoneme::Eh) => Some("ゼ"@),
        Some(Phoneme::Ey) => Some("ゼ"@),
        Some(Phoneme::Ao) => Some("ゾ"@),
        Some(Phoneme::Ow) => Some("ゾ"@),
        Some(Phoneme::Oy) => Some("ゾ"@),
        _ => None,
    }
}

/// The row of `W`.
pub open spec fn row_w(inner: Option<Phoneme>) -> Option<Seq<char>> {
    match inner {
        None => Some("ウ"@),
        Some(Phoneme::Aa) => Some("ワ"@),
        Some(Phoneme::Ah) => Some("ワ"@),
        Some(Phoneme::Ae) => Some("ワ"@),
        Some(Phoneme::Aw) => Some("ワ"@),
        Some(Phoneme::Ay) => Some("ワイ"@),
        Some(Phoneme::Er) => Some("ウィ"@),
        Some(Phoneme::Iy) => Some("ウィ"@),
        Some(Phoneme::Ih) => Some("ウィ"@),
        Some(Phoneme::Uh) => Some("ウ"@),
        Some(Phoneme::Uw) => Some("ウ"@),
        Some(Phoneme::Eh) => Some("ウェ"@),
        Some(Phoneme::Ey) => Some("ウェ"@),
        Some(Phoneme::Ao) => Some("ウォ"@),
        Some(Phoneme::Ow) => Some("ウォ"@),
        Some(Phoneme::Oy) => Some("ウォ"@),
        _ => None,
    }
}

/// The row of `NG`.
pub open spec fn row_ng(inner: Option<Phoneme>) -> Option<Seq<char>> {
    match inner {
        None => Some("ング"@),
        Some(Phoneme::Aa) => Some("ンガ"@),
        Some(Phoneme::Ah) => Some("ンガ"@),
        Some(Phoneme::Ae) => Some("ンガ"@),
        Some(Phoneme::Aw) => Some("ンガ"@),
        Some(Phoneme::Ay) => Some("ンガイ"@),
        Some(Phoneme::Er) => Some("ンギ"@),
        Some(Phoneme::Iy) => Some("ンギ"@),
        Some(Phoneme::Ih) => Some("ンギ"@),
        Some(Phoneme::Uh) => Some("ング"@),
        Some(Phoneme::Uw) => Some("ング"@),
        Some(Phoneme::Eh) => Some("ンゲ"@),
        Some(Phoneme::Ey) => Some("ンゲ"@),
        Some(Phoneme::Ao) => Some("ンゴ"@),
        Some(Phoneme::Ow) => Some("ンゴ"@),
        Some(Phoneme::Oy) => Some("ンゴ"@),
        _ => None,
    }
}

/// The row of `Y`.
pub open spec fn row_y(inner: Option<Phoneme>) -> Option<Seq<char>> {
    match inner {
        None => Some("イ"@),
        Some(Phoneme::Aa) => Some("ア"@),
        Some(Phoneme::Ah) => Some("ア"@),
        Some(Phoneme::Ae) => Some("ア"@),
        Some(Phoneme::Aw) => Some("ア"@),
        Some(Phoneme::Ay) => Some("アイ"@),
        Some(Phoneme::Er) => Some("イ"@),
        Some(Phoneme::Iy) => Some("イ"@),
        Some(Phoneme::Ih) => Some("イ"@),
        Some(Phoneme::Uh) => Some("ュ"@),
        Some(Phoneme::Uw) => Some("ュ"@),
        Some(Phoneme::Eh) => Some("エ"@),
        Some(Phoneme::Ey) => Some("エ"@),
        Some(Phoneme::Ao) => Some("ョ"@),
        Some(Phoneme::Ow) => Some("ョ"@),
        Some(Phoneme::Oy) => Some("ョ"@),
        _ => None,
    }
}

/// The row of `TH`.
pub open spec fn row_th(inner: Option<Phoneme>) -> Option<Seq<char>> {
    match inner {
        None => Some("ス"@),
        Some(Phoneme::Aa) => Some("サ"@),
        Some(Phoneme::Ah) => Some("サ"@),
        Some(Phoneme::Ae) => Some("サ"@),
        Some(Phoneme::Aw) => Some("サ"@),
        Some(Phoneme::Ay) => Some("サイ"@),
        Some(Phoneme::Er) => Some("シ"@),
        Some(Phoneme::Iy) => Some("シ"@),
        Some(Phoneme::Ih) => Some("シ"@),
        Some(Phoneme::Uh) => Some("ス"@),
        Some(Phoneme::Uw) => Some("ス"@),
        Some(Phoneme::Eh) => Some("セ"@),
        Some(Phoneme::Ey) => Some("セ"@),
        Some(Phoneme::Ao) => Some("ソ"@),
        Some(Phoneme::Ow) => Some("ソ"@),
        Some(Phoneme::Oy) => Some("ソ"@),
        _ => None,
    }
}

/// The row of `G`.
pub open spec fn row_g(inner: Option<Phoneme>) -> Option<Seq<char>> {
    match inner {
        None => Some("グ"@),
        Some(Phoneme::Aa) => Some("ガ"@),
        Some(Phoneme::Ah) => Some("ガ"@),
        Some(Phoneme::Ae) => Some("ガ"@),
        Some(Phoneme::Aw) => Some("ガ"@),
        Some(Phoneme::Ay) => Some("ガイ"@),
        Some(Phoneme::Er) => Some("ギ"@),
        Some(Phoneme::Iy) => Some("ギ"@),
        Some(Phoneme::Ih) => Some("ギ"@),
        Some(Phoneme::Uh) => Some("グ"@),
        Some(Phoneme::Uw) => Some("グ"@),
        Some(Phoneme::Eh) => Some("ゲ"@),
        Some(Phoneme::Ey) => Some("ゲ"@),
        Some(Phoneme::Ao) => Some("ゴ"@),
        Some(Phoneme::Ow) => Some("ゴ"@),
        Some(Phoneme::Oy) => Some("ゴ"@),
        _ => None,
    }
}

/// The row of `CH`.
pub open spec fn row_ch(inner: Option<Phoneme>) -> Option<Seq<char>> {
    match inner {
        None => Some("チ"@),
        Some(Phoneme::Aa) => Some("チャ"@),
        Some(Phoneme::Ah) => Some("チャ"@),
        Some(Phoneme::Ae) => Some("チャ"@),
        Some(Phoneme::Aw) => Some("チャ"@),
        Some(Phoneme::Ay) => Some("チャイ"@),
        Some(Phoneme::Er) => Some("チ"@),
        Some(Phoneme::Iy) => Some("チ"@),
        Some(Phoneme::Ih) => Some("チ"@),
        Some(Phoneme::Uh) => Some("チュ"@),
        Some(Phoneme::Uw) => Some("チュ"@),
        Some(Phoneme::Eh) => Some("チェ"@),
        Some(Phoneme::Ey) => Some("チェ"@),
        Some(Phoneme::Ao) => Some("チョ"@),
        Some(Phoneme::Ow) => Some("チョ"@),
        Some(Phoneme::Oy) => Some("チョ"@),
        _ => None,
    }
}

/// The row of `D`.
pub open spec fn row_d(inner: Option<Phoneme>) -> Option<Seq<char>> {
    match inner {
        None => Some("ド"@),
        Some(Phoneme::Aa) => Some("ダ"@),
        Some(Phoneme::Ah) => Some("ダ"@),
        Some(Phoneme::Ae) => Some("ダ"@),
        Some(Phoneme::Aw) => Some("ダ"@),
        Some(Phoneme::Ay) => Some("ダイ"@),
        Some(Phoneme::Er) => Some("ダー"@),
        Some(Phoneme::Iy) => Some("ディ"@),
        Some(Phoneme::Ih) => Some("ディ"@),
        Some(Phoneme::Uh) => Some("ドゥ"@),
        Some(Phoneme::Uw) => Some("ドゥ"@),
        Some(Phoneme::Eh) => Some("デ"@),
        Some(Phoneme::Ey) => Some("デ"@),
        Some(Phoneme::Ao) => Some("ド"@),
        Some(Phoneme::Ow) => Some("ド"@),
        Some(Phoneme::Oy) => Some("ド"@),
        _ => None,
    }
}

/// The row of `B`.
pub open spec fn row_b(inner: Option<Phoneme>) -> Option<Seq<char>> {
    match inner {
        None => Some("ブ"@),
        Some(Phoneme::Aa) => Some("バ"@),
        Some(Phoneme::Ah) => Some("バ"@),
        Some(Phoneme::Ae) => Some("バ"@),
        Some(Phoneme::Aw) => Some("バウ"@),
        Some(Phoneme::Ay) => Some("バイ"@),
        Some(Phoneme::Er) => Some("ビ"@),
        Some(Phoneme::Iy) => Some("ビ"@),
        Some(Phoneme::Ih) => Some("ビ"@),
        Some(Phoneme::Uh) => Some("ブ"@),
        Some(Phoneme::Uw) => Some("ブ"@),
        Some(Phoneme::Eh) => Some("ベ"@),
        Some(Phoneme::Ey) => Some("ベ"@),
        Some(Phoneme::Ao) => Some("ボ"@),
        Some(Phoneme::Ow) => Some("ボ"@),
        Some(Phoneme::Oy) => Some("ボ"@),
        _ => None,
    }
}

/// The row of `SH`.
pub open spec fn row_sh(inner: Option<Phoneme>) -> Option<Seq<char>> {
    match inner {
        None => Some("シ"@),
        Some(Phoneme::Aa) => Some("シャ"@),
        Some(Phoneme::Ah) => Some("ショ"@),
        Some(Phoneme::Ae) => Some("シャ"@),
        Some(Phoneme::Aw) => Some("シャ"@),
        Some(Phoneme::Ay) => Some("シャイ"@),
        Some(Phoneme::Er) => Some("シ"@),
        Some(Phoneme::Iy) => Some("シー"@),
        Some(Phoneme::Ih) => Some("シ"@),
        Some(Phoneme::Uh) => Some("シュ"@),
        Some(Phoneme::Uw) => Some("シュ"@),
        Some(Phoneme::Eh) => Some("シェ"@),
        Some(Phoneme::Ey) => Some("シェ"@),
        Some(Phoneme::Ao) => Some("ショ"@),
        Some(Phoneme::Ow) => Some("ショ"@),
        Some(Phoneme::Oy) => Some("ショ"@),
        _ => None,
    }
}

/// The row of `F`.
pub open spec fn row_f(inner: Option<Phoneme>) -> Option<Seq<char>> {
    match inner {
        None => Some("フ"@),
        Some(Phoneme::Aa) => Some("ファ"@),
        Some(Phoneme::Ah) => Some("ファ"@),
        Some(Phoneme::Ae) => Some("ファ"@),
        Some(Phoneme::Aw) => Some("ファ"@),
        Some(Phoneme::Ay) => Some("ファイ"@),
        Some(Phoneme::Er) => Some("フィ"@),
        Some(Phoneme::Iy) => Some("フィ"@),
        Some(Phoneme::Ih) => Some("フィ"@),
        Some(Phoneme::Uh) => Some("フ"@),
        Some(Phoneme::Uw) => Some("フ"@),
        Some(Phoneme::Eh) => Some("フェ"@),
        Some(Phoneme::Ey) => Some("フェ"@),
        Some(Phoneme::Ao) => Some("フォ"@),
        Some(Phoneme::Ow) => Some("フォ"@),
        Some(Phoneme::Oy) => Some("フォ"@),
        _ => None,
    }
}

/// The row of `K`.
pub open spec fn row_k(inner: Option<Phoneme>) -> Option<Seq<char>> {
    match inner {
        None => Some("ク"@),
        Some(Phoneme::Aa) => Some("カ"@),
        Some(Phoneme::Ah) => Some("カ"@),
        Some(Phoneme::Ae) => Some("カ"@),
        Some(Phoneme::Aw) => Some("カ"@),
        Some(Phoneme::Ay) => Some("カイ"@),
        Some(Phoneme::Er) => Some("キ"@),
        Some(Phoneme::Iy) => Some("キ"@),
        Some(Phoneme::Ih) => Some("キ"@),
        Some(Phoneme::Uh) => Some("ク"@),
        Some(Phoneme::Uw) => Some("ク"@),
        Some(Phoneme::Eh) => Some("ケ"@),
        Some(Phoneme::Ey) => Some("ケ"@),
        Some(Phoneme::Ao) => Some("コ"@),
        Some(Phoneme::Ow) => Some("コ"@),
        Some(Phoneme::Oy) => Some("コ"@),
        _ => None,
    }
}

/// The row of `M`.
pub open spec fn row_m(inner: Option<Phoneme>) -> Option<Seq<char>> {
    match inner {
        None => Some("ム"@),
        Some(Phoneme::Aa) => Some("マ"@),
        Some(Phoneme::Ah) => Some("マ"@),
        Some(Phoneme::Ae) => Some("マ"@),
        Some(Phoneme::Aw) => Some("マウ"@),
        Some(Phoneme::Ay) => Some("マイ"@),
        Some(Phoneme::Er) => Some("ミ"@),
        Some(Phoneme::Iy) => Some("ミ"@),
        Some(Phoneme::Ih) => Some("ミ"@),
        Some(Phoneme::Uh) => Some("ム"@),
        Some(Phoneme::Uw) => Some("ム"@),
        Some(Phoneme::Eh) => Some("メ"@),
        Some(Phoneme::Ey) => Some("メ"@),
        Some(Phoneme::Ao) => Some("モ"@),
        Some(Phoneme::Ow) => Some("モ"@),
        Some(Phoneme::Oy) => Some("モ"@),
        _ => None,
    }
}

/// The row of `R`.
pub open spec fn row_r(inner: Option<Phoneme>) -> Option<Seq<char>> {
    match inner {
        None => Some("ー"@),
        Some(Phoneme::Aa) => Some("ラ"@),
        Some(Phoneme::Ah) => Some("ラ"@),
        Some(Phoneme::Ae) => Some("ラ"@),
        Some(Phoneme::Aw) => Some("ラ"@),
        Some(Phoneme::Ay) => Some("ライ"@),
        Some(Phoneme::Er) => Some("リ"@),
        Some(Phoneme::Iy) => Some("リ"@),
        Some(Phoneme::Ih) => Some("リ"@),
        Some(Phoneme::Uh) => Some("ル"@),
        Some(Phoneme::Uw) => Some("ル"@),
        Some(Phoneme::Eh) => Some("レ"@),
        Some(Phoneme::Ey) => Some("レ"@),
        Some(Phoneme::Ao) => Some("ロ"@),
        Some(Phoneme::Ow) => Some("ロ"@),
        Some(Phoneme::Oy) => Some("ロ"@),
        _ => None,
    }
}

/// The row of `V`.
pub open spec fn row_v(inner: Option<Phoneme>) -> Option<Seq<char>> {
    match inner {
        None => Some("ブ"@),
        Some(Phoneme::Aa) => Some("バ"@),
        Some(Phoneme::Ah) => Some("バ"@),
        Some(Phoneme::Ae) => Some("ヴァ"@),
        Some(Phoneme::Aw) => Some("バ"@),
        Some(Phoneme::Ay) => Some("バイ"@),
        Some(Phoneme::Er) => Some("ビ"@),
        Some(Phoneme::Iy) => Some("ビ"@),
        Some(Phoneme::Ih) => Some("ビ"@),
        Some(Phoneme::Uh) => Some("ブ"@),
        Some(Phoneme::Uw) => Some("ブ"@),
        Some(Phoneme::Eh) => Some("ベ"@),
        Some(Phoneme::Ey) => Some("ベ"@),
        Some(Phoneme::Ao) => Some("ボ"@),
        Some(Phoneme::Ow) => Some("ボ"@),
        Some(Phoneme::Oy) => Some("ボ"@),
        _ => None,
    }
}

/// The row of `Z`.
pub open spec fn row_z(inner: Option<Phoneme>) -> Option<Seq<char>> {
    match inner {
        None => Some("ズ"@),
        Some(Phoneme::Aa) => Some("ザ"@),
        Some(Phoneme::Ah) => Some("ザ"@),
        Some(Phoneme::Ae) => Some("ザ"@),
        Some(Phoneme::Aw) => Some("ザ"@),
        Some(Phoneme::Ay) => Some("ザイ"@),
        Some(Phoneme::Er) => Some("ザー"@),
        Some(Phoneme::Iy) => Some("ジ"@),
        Some(Phoneme::Ih) => Some("ジ"@),
        Some(Phoneme::Uh) => Some("ズ"@),
        Some(Phoneme::Uw) => Some("ズ"@),
        Some(Phoneme::Eh) => Some("ゼ"@),
        Some(Phoneme::Ey) => Some("ゼ"@),
        Some(Phoneme::Ao) => Some("ゾ"@),
        Some(Phoneme::Ow) => Some("ゾ"@),
        Some(Phoneme::Oy) => Some("ゾ"@),
        _ => None,
    }
}

/// The row of `N`.
pub open spec fn row_n(inner: Option<Phoneme>) -> Option<Seq<char>> {
    match inner {
        None => Some("ン"@),
        Some(Phoneme::Aa) => Some("ナ"@),
        Some(Phoneme::Ah) => Some("ナ"@),
        Some(Phoneme::Ae) => Some("ナ"@),
        Some(Phoneme::Aw) => Some("ナ"@),
        Some(Phoneme::Ay) => Some("ナイ"@),
        Some(Phoneme::Er) => Some("ニ"@),
        Some(Phoneme::Iy) => Some("ニー"@),
        Some(Phoneme::Ih) => Some("ニ"@),
        Some(Phoneme::Uh) => Some("ヌ"@),
        Some(Phoneme::Uw) => Some("ヌ"@),
        Some(Phoneme::Eh) => Some("ネ"@),
        Some(Phoneme::Ey) => Some("ネ"@),
        Some(Phoneme::Ao) => Some("ノ"@),
        Some(Phoneme::Ow) => Some("ノ"@),
        Some(Phoneme::Oy) => Some("ノ"@),
        _ => None,
    }
}

/// The row of `P`.
pub open spec fn row_p(inner: Option<Phoneme>) -> Option<Seq<char>> {
    match inner {
        None => Some("プ"@),
        Some(Phoneme::Aa) => Some("パ"@),
        Some(Phoneme::Ah) => Some("パ"@),
        Some(Phoneme::Ae) => Some("パ"@),
        Some(Phoneme::Aw) => Some("パ"@),
        Some(Phoneme::Ay) => Some("パイ"@),
        Some(Phoneme::Er) => Some("ピ"@),
        Some(Phoneme::Iy) => Some("ピ"@),
        Some(Phoneme::Ih) => Some("ピ"@),
        Some(Phoneme::Uh) => Some("プ"@),
        Some(Phoneme::Uw) => Some("プ"@),
        Some(Phoneme::Eh) => Some("ペ"@),
        Some(Phoneme::Ey) => Some("ペ"@),
        Some(Phoneme::Ao) => Some("ポ"@),
        Some(Phoneme::Ow) => Some("ポ"@),
        Some(Phoneme::Oy) => Some("ポ"@),
        _ => None,
    }
}

/// The row of `JH`.
pub open spec fn row_jh(inner: Option<Phoneme>) -> Option<Seq<char>> {
    match inner {
        None => Some("ジ"@),
        Some(Phoneme::Aa) => Some("ジャ"@),
        Some(Phoneme::Ah) => Some("ジャ"@),
        Some(Phoneme::Ae) => Some("ジャ"@),
        Some(Phoneme::Aw) => Some("ジャ"@),
        Some(Phoneme::Ay) => Some("ジャイ"@),
        Some(Phoneme::Er) => Some("ジ"@),
        Some(Phoneme::Iy) => Some("ジ"@),
        Some(Phoneme::Ih) => Some("ジ"@),
        Some(Phoneme::Uh) => Some("ジュ"@),
        Some(Phoneme::Uw) => Some("ジュ"@),
        Some(Phoneme::Eh) => Some("ジェ"@),
        Some(Phoneme::Ey) => Some("ジェ"@),
        Some(Phoneme::Ao) => Some("ジョ"@),
        Some(Phoneme::Ow) => Some("ジョ"@),
        Some(Phoneme::Oy) => Some("ジョ"@),
        _ => None,
    }
}

/// The row of `L`.
pub open spec fn row_l(inner: Option<Phoneme>) -> Option<Seq<char>> {
    match inner {
        None => Some("ル"@),
        Some(Phoneme::Aa) => Some("ラ"@),
        Some(Phoneme::Ah) => Some("ラ"@),
        Some(Phoneme::Ae) => Some("ラ"@),
        Some(Phoneme::Aw) => Some("ラ"@),
        Some(Phoneme::Ay) => Some("ライ"@),
        Some(Phoneme::Er) => Some("ラー"@),
        Some(Phoneme::Iy) => Some("リー"@),
        Some(Phoneme::Ih) => Some("リ"@),
        Some(Phoneme::Uh) => Some("ル"@),
        Some(Phoneme::Uw) => Some("ル"@),
        Some(Phoneme::Eh) => Some("レ"@),
        Some(Phoneme::Ey) => Some("レ"@),
        Some(Phoneme::Ao) => Some("ロ"@),
        Some(Phoneme::Ow) => Some("ロー"@),
        Some(Phoneme::Oy) => Some("ロ"@),
        _ => None,
    }
}

/// The row of `HH`.
pub open spec fn row_hh(inner: Option<Phoneme>) -> Option<Seq<char>> {
    match inner {
        None => Some("フ"@),
        Some(Phoneme::Aa) => Some("ハ"@),
        Some(Phoneme::Ah) => Some("ハ"@),
        Some(Phoneme::Ae) => Some("ハ"@),
        Some(Phoneme::Aw) => Some("ハウ"@),
        Some(Phoneme::Ay) => Some("ハイ"@),
        Some(Phoneme::Er) => Some("ハリ"@),
        Some(Phoneme::Iy) => Some("ヒ"@),
        Some(Phoneme::Ih) => Some("ヒ"@),
        Some(Phoneme::Uh) => Some("フ"@),
        Some(Phoneme::Uw) => Some("フ"@),
        Some(Phoneme::Eh) => Some("ヘ"@),
        Some(Phoneme::Ey) => Some("ヘ"@),
        Some(Phoneme::Ao) => Some("ホ"@),
        Some(Phoneme::Ow) => Some("ホ"@),
        Some(Phoneme::Oy) => Some("ホ"@),
        _ => None,
    }
}

/// The row of `S`.
pub open spec fn row_s(inner: Option<Phoneme>) -> Option<Seq<char>> {
    match inner {
        None => Some("ス"@),
        Some(Phoneme::Aa) => Some("タ"@),
        Some(Phoneme::Ah) => Some("タ"@),
        Some(Phoneme::Ae) => Some("サ"@),
        Some(Phoneme::Aw) => Some("サ"@),
        Some(Phoneme::Ay) => Some("サイ"@),
        Some(Phoneme::Er) => Some("サ"@),
        Some(Phoneme::Iy) => Some("シ"@),
        Some(Phoneme::Ih) => Some("シ"@),
        Some(Phoneme::Uh) => Some("ス"@),
        Some(Phoneme::Uw) => Some("ス"@),
        Some(Phoneme::Eh) => Some("セ"@),
        Some(Phoneme::Ey) => Some("セイ"@),
        Some(Phoneme::Ao) => Some("ソ"@),
        Some(Phoneme::Ow) => Some("ソ"@),
        Some(Phoneme::Oy) => Some("ソ"@),
        _ => None,
    }
}

/// The row of `T`.
pub open spec fn row_t(inner: Option<Phoneme>) -> Option<Seq<char>> {
    match inner {
        None => Some("ト"@),
        Some(Phoneme::Aa) => Some("トッ"@),
        Some(Phoneme::Ah) => Some("タ"@),
        Some(Phoneme::Ae) => Some("タ"@),
        Some(Phoneme::Aw) => Some("タ"@),
        Some(Phoneme::Ay) => Some("タイ"@),
        Some(Phoneme::Er) => Some("タ"@),
        Some(Phoneme::Iy) => Some("ティ"@),
        Some(Phoneme::Ih) => Some("ティ"@),
        Some(Phoneme::Uh) => Some("チュ"@),
        Some(Phoneme::Uw) => Some("チュ"@),
        Some(Phoneme::Eh) => Some("テ"@),
        Some(Phoneme::Ey) => Some("テ"@),
        Some(Phoneme::Ao) => Some("ト"@),
        Some(Phoneme::Ow) => Some("ト"@),
        Some(Phoneme::Oy) => Some("ト"@),
        _ => None,
    }
}

/// The katakana for `outer` followed by `inner`, or for `outer` alone where
/// `inner` is `None`; `None` where the table has no such entry.
pub open spec fn fragment(outer: Phoneme, inner: Option<Phoneme>) -> Option<Seq<char>> {
    match outer {
        Phoneme::Aa => row_aa(inner),
        Phoneme::Ah => row_ah(inner),
        Phoneme::Ae => row_ae(inner),
        Phoneme::Aw => row_aw(inner),
        Phoneme::Ay => row_ay(inner),
        Phoneme::Er => row_er(inner),
        Phoneme::Iy => row_iy(inner),
        Phoneme::Ih => row_ih(inner),
        Phoneme::Uh => row_uh(inner),
        Phoneme::Uw => row_uw(inner),
        Phoneme::Eh => row_eh(inner),
        Phoneme::Ey => row_ey(inner),
        Phoneme::Ao => row_ao(inner),
        Phoneme::Ow => row_ow(inner),
        Phoneme::Oy => row_oy(inner),
        Phoneme::Zh => row_zh(inner),
        Phoneme::Dh => row_dh(inner),
        Phoneme::W => row_w(inner),
        Phoneme::Ng => row_ng(inner),
        Phoneme::Y => row_y(inner),
        Phoneme::Th => row_th(inner),
        Phoneme::G => row_g(inner),
        Phoneme::Ch => row_ch(inner),
        Phoneme::D => row_d(inner),
        Phoneme::B => row_b(inner),
        Phoneme::Sh => row_sh(inner),
        Phoneme::F => row_f(inner),
        Phoneme::K => row_k(inner),
        Phoneme::M => row_m(inner),
        Phoneme::R => row_r(inner),
        Phoneme::V => row_v(inner),
        Phoneme::Z => row_z(inner),
        Phoneme::N => row_n(inner),
        Phoneme::P => row_p(inner),
        Phoneme::Jh => row_jh(inner),
        Phoneme::L => row_l(inner),
        Phoneme::Hh => row_hh(inner),
        Phoneme::S => row_s(inner),
        Phoneme::T => row_t(inner),
    }
}

fn lookup_aa(inner: Option<Phoneme>) -> (r: Option<&'static str>)
    ensures
        view_of(r) == row_aa(inner),
{
    match inner {
        None => Some("アー"),
        Some(Phoneme::Iy) => Some("アイ"),
        Some(Phoneme::Uw) => Some("オウ"),
        _ => None,
    }
}

fn lookup_ah(inner: Option<Phoneme>) -> (r: Option<&'static str>)
    ensures
        view_of(r) == row_ah(inner),
{
    match inner {
        None => Some("ア"),
        Some(Phoneme::Er) => Some("アエル"),
        Some(Phoneme::Ow) => Some("アッアウ"),
        _ => None,
    }
}

fn lookup_ae(inner: Option<Phoneme>) -> (r: Option<&'static str>)
    ensures
        view_of(r) == row_ae(inner),
{
    match inner {
        None => Some("ア"),
        _ => None,
    }
}

fn lookup_aw(inner: Option<Phoneme>) -> (r: Option<&'static str>)
    ensures
        view_of(r) == row_aw(inner),
{
    match inner {
        None => Some("オウ"),
        Some(Phoneme::Ah) => Some("アウア"),
        Some(Phoneme::Er) => Some("アワー"),
        Some(Phoneme::Iy) => Some("アオイ"),
        Some(Phoneme::Ih) => Some("アウィ"),
        Some(Phoneme::Uw) => Some("アオウ"),
        _ => None,
    }
}

fn lookup_ay(inner: Option<Phoneme>) -> (r: Option<&'static str>)
    ensures
        view_of(r) == row_ay(inner),
{
    match inner {
        None => Some("アイ"),
        Some(Phoneme::Aa) => Some("アイ"),
        Some(Phoneme::Ah) => Some("アイア"),
        Some(Phoneme::Ae) => Some("アイェ"),
        Some(Phoneme::Aw) => Some("アイオウ"),
        Some(Phoneme::Er) => Some("アイア"),
        Some(Phoneme::Iy) => Some("ウイェ"),
        Some(Phoneme::Ih) => Some("アイイ"),
        Some(Phoneme::Uw) => Some("アユ"),
        Some(Phoneme::Eh) => Some("アイ"),
        Some(Phoneme::Ey) => Some("ウイェ"),
        Some(Phoneme::Ow) => Some("アイオ"),
        _ => None,
    }
}

fn lookup_er(inner: Option<Phoneme>) -> (r: Option<&'static str>)
    ensures
        view_of(r) == row_er(inner),
{
    match inner {
        None => Some("アー"),
        Some(Phoneme::Aa) => Some("ア"),
        Some(Phoneme::Ah) => Some("ア"),
        Some(Phoneme::Ae) => Some("アラ"),
        Some(Phoneme::Aw) => Some("アラウ"),
        Some(Phoneme::Ay) => Some("アライ"),
        Some(Phoneme::Er) => Some("アー"),
        Some(Phoneme::Iy) => Some("エリ"),
        Some(Phoneme::Ih) => Some("エリ"),
        Some(Phoneme::Uh) => Some("オロウ"),
        Some(Phoneme::Uw) => Some("ウル"),
        Some(Phoneme::Eh) => Some("オレ"),
        Some(Phoneme::Ey) => Some("アレイ"),
        Some(Phoneme::Ao) => Some("アロ"),
        Some(Phoneme::Ow) => Some("アロ"),
        Some(Phoneme::Oy) => Some("アロイ"),
        _ => None,
    }
}

fn lookup_iy(inner: Option<Phoneme>) -> (r: Option<&'static str>)
    ensures
        view_of(r) == row_iy(inner),
{
    match inner {
        None => Some("イー"),
        Some(Phoneme::Aa) => Some("イア"),
        Some(Phoneme::Ah) => Some("イア"),
        Some(Phoneme::Ae) => Some("イア"),
        Some(Phoneme::Er) => Some("アイヤー"),
        Some(Phoneme::Iy) => Some("イイ"),
        Some(Phoneme::Ih) => Some("ー"),
        Some(Phoneme::Uw) => Some("イウ"),
        Some(Phoneme::Eh) => Some("イエ"),
        Some(Phoneme::Ey) => Some("イー"),
        Some(Phoneme::Ao) => Some("イオ"),
        Some(Phoneme::Ow) => Some("イオ"),
        _ => None,
    }
}

fn lookup_ih(inner: Option<Phoneme>) -> (r: Option<&'static str>)
    ensures
        view_of(r) == row_ih(inner),
{
    match inner {
        None => Some("イ"),
        _ => None,
    }
}

fn lookup_uh(inner: Option<Phoneme>) -> (r: Option<&'static str>)
    ensures
        view_of(r) == row_uh(inner),
{
    match inner {
        None => Some("ウ"),
        Some(Phoneme::Ah) => Some("ウー"),
        _ => None,
    }
}

fn lookup_uw(inner: Option<Phoneme>) -> (r: Option<&'static str>)
    ensures
        view_of(r) == row_uw(inner),
{
    match inner {
        None => Some("ウ"),
        Some(Phoneme::Aa) => Some("ウア"),
        Some(Phoneme::Ah) => Some("ウー"),
        Some(Phoneme::Er) => Some("ウアー"),
        Some(Phoneme::Iy) => Some("ウイ"),
        Some(Phoneme::Ih) => Some("ウエ"),
        Some(Phoneme::Ey) => Some("ウエ"),
        _ => None,
    }
}

fn lookup_eh(inner: Option<Phoneme>) -> (r: Option<&'static str>)
    ensures
        view_of(r) == row_eh(inner),
{
    match inner {
        None => Some("エ"),
        Some(Phoneme::Ow) => Some("エオ"),
        _ => None,
    }
}

fn lookup_ey(inner: Option<Phoneme>) -> (r: Option<&'static str>)
    ensures
        view_of(r) == row_ey(inner),
{
    match inner {
        None => Some("エイ"),
        Some(Phoneme::Aa) => Some("エイアー"),
        Some(Phoneme::Ah) => Some("エイ"),
        Some(Phoneme::Aw) => Some("アヨウ"),
        Some(Phoneme::Er) => Some("エアー"),
        Some(Phoneme::Iy) => Some("エイ"),
        Some(Phoneme::Eh) => Some("エイ"),
        Some(Phoneme::Ey) => Some("アー"),
        Some(Phoneme::Ao) => Some("エイオ"),
        Some(Phoneme::Ow) => Some("アオ"),
        _ => None,
    }
}

fn lookup_ao(inner: Option<Phoneme>) -> (r: Option<&'static str>)
    ensures
        view_of(r) == row_ao(inner),
{
    match inner {
        None => Some("オ"),
        Some(Phoneme::Eh) => Some("アオエ"),
        _ => None,
    }
}

fn lookup_ow(inner: Option<Phoneme>) -> (r: Option<&'static str>)
    ensures
        view_of(r) == row_ow(inner),
{
    match inner {
        None => Some("オー"),
        Some(Phoneme::Aa) => Some("オア"),
        Some(Phoneme::Ah) => Some("オア"),
        Some(Phoneme::Ae) => Some("オエ"),
        Some(Phoneme::Iy) => Some("オイ"),
        Some(Phoneme::Ih) => Some("オーウィ"),
        Some(Phoneme::Uh) => Some("オウ"),
        Some(Phoneme::Eh) => Some("オフエ"),
        Some(Phoneme::Ey) => Some("オウエイ"),
        Some(Phoneme::Ao) => Some("オウォ"),
        _ => None,
    }
}

fn lookup_oy(inner: Option<Phoneme>) -> (r: Option<&'static str>)
    ensures
        view_of(r) == row_oy(inner),
{
    match inner {
        None => Some("オイ"),
        Some(Phoneme::Er) => Some("オイヤー"),
        Some(Phoneme::Ih) => Some("オイエ"),
        Some(Phoneme::Ow) => Some("オヨ"),
        _ => None,
    }
}

fn lookup_zh(inner: Option<Phoneme>) -> (r: Option<&'static str>)
    ensures
        view_of(r) == row_zh(inner),
{
    match inner {
        None => Some("ジュ"),
        Some(Phoneme::Aa) => Some("ジャ"),
        Some(Phoneme::Ah) => Some("ジョ"),
        Some(Phoneme::Ae) => Some("ジャ"),
        Some(Phoneme::Aw) => Some("ジャ"),
        Some(Phoneme::Ay) => Some("ジャイ"),
        Some(Phoneme::Er) => Some("ジェ"),
        Some(Phoneme::Iy) => Some("ジ"),
        Some(Phoneme::Ih) => Some("ジ"),
        Some(Phoneme::Uh) => Some("ジュ"),
        Some(Phoneme::Uw) => Some("ジュ"),
        Some(Phoneme::Eh) => Some("ジェ"),
        Some(Phoneme::Ey) => Some("ジェ"),
        Some(Phoneme::Ao) => Some("ジョ"),
        Some(Phoneme::Ow) => Some("ジョ"),
        Some(Phoneme::Oy) => Some("ジョ"),
        _ => None,
    }
}

fn lookup_dh(inner: Option<Phoneme>) -> (r: Option<&'static str>)
    ensures
        view_of(r) == row_dh(inner),
{
    match inner {
        None => Some("ズ"),
        Some(Phoneme::Aa) => Some("ザ"),
        Some(Phoneme::Ah) => Some("ザ"),
        Some(Phoneme::Ae) => Some("ザ"),
        Some(Phoneme::Aw) => Some("ザ"),
        Some(Phoneme::Ay) => Some("ザイ"),
        Some(Phoneme::Er) => Some("ザー"),
        Some(Phoneme::Iy) => Some("ジ"),
        Some(Phoneme::Ih) => Some("ジ"),
        Some(Phoneme::Uh) => Some("ズ"),
        Some(Phoneme::Uw) => Some("ズ"),
        Some(Phoneme::Eh) => Some("ゼ"),
        Some(Phoneme::Ey) => Some("ゼ"),
        Some(Phoneme::Ao) => Some("ゾ"),
        Some(Phoneme::Ow) => Some("ゾ"),
        Some(Phoneme::Oy) => Some("ゾ"),
        _ => None,
    }
}

fn lookup_w(inner: Option<Phoneme>) -> (r: Option<&'static str>)
    ensures
        view_of(r) == row_w(inner),
{
    match inner {
        None => Some("ウ"),
        Some(Phoneme::Aa) => Some("ワ"),
        Some(Phoneme::Ah) => Some("ワ"),
        Some(Phoneme::Ae) => Some("ワ"),
        Some(Phoneme::Aw) => Some("ワ"),
        Some(Phoneme::Ay) => Some("ワイ"),
        Some(Phoneme::Er) => Some("ウィ"),
        Some(Phoneme::Iy) => Some("ウィ"),
        Some(Phoneme::Ih) => Some("ウィ"),
        Some(Phoneme::Uh) => Some("ウ"),
        Some(Phoneme::Uw) => Some("ウ"),
        Some(Phoneme::Eh) => Some("ウェ"),
        Some(Phoneme::Ey) => Some("ウェ"),
        Some(Phoneme::Ao) => Some("ウォ"),
        Some(Phoneme::Ow) => Some("ウォ"),
        Some(Phoneme::Oy) => Some("ウォ"),
        _ => None,
    }
}

fn lookup_ng(inner: Option<Phoneme>) -> (r: Option<&'static str>)
    ensures
        view_of(r) == row_ng(inner),
{
    match inner {
        None => Some("ング"),
        Some(Phoneme::Aa) => Some("ンガ"),
        Some(Phoneme::Ah) => Some("ンガ"),
        Some(Phoneme::Ae) => Some("ンガ"),
        Some(Phoneme::Aw) => Some("ンガ"),
        Some(Phoneme::Ay) => Some("ンガイ"),
        Some(Phoneme::Er) => Some("ンギ"),
        Some(Phoneme::Iy) => Some("ンギ"),
        Some(Phoneme::Ih) => Some("ンギ"),
        Some(Phoneme::Uh) => Some("ング"),
        Some(Phoneme::Uw) => Some("ング"),
        Some(Phoneme::Eh) => Some("ンゲ"),
        Some(Phoneme::Ey) => Some("ンゲ"),
        Some(Phoneme::Ao) => Some("ンゴ"),
        Some(Phoneme::Ow) => Some("ンゴ"),
        Some(Phoneme::Oy) => Some("ンゴ"),
        _ => None,
    }
}

fn lookup_y(inner: Option<Phoneme>) -> (r: Option<&'static str>)
    ensures
        view_of(r) == row_y(inner),
{
    match inner {
        None => Some("イ"),
        Some(Phoneme::Aa) => Some("ア"),
        Some(Phoneme::Ah) => Some("ア"),
        Some(Phoneme::Ae) => Some("ア"),
        Some(Phoneme::Aw) => Some("ア"),
        Some(Phoneme::Ay) => Some("アイ"),
        Some(Phoneme::Er) => Some("イ"),
        Some(Phoneme::Iy) => Some("イ"),
        Some(Phoneme::Ih) => Some("イ"),
        Some(Phoneme::Uh) => Some("ュ"),
        Some(Phoneme::Uw) => Some("ュ"),
        Some(Phoneme::Eh) => Some("エ"),
        Some(Phoneme::Ey) => Some("エ"),
        Some(Phoneme::Ao) => Some("ョ"),
        Some(Phoneme::Ow) => Some("ョ"),
        Some(Phoneme::Oy) => Some("ョ"),
        _ => None,
    }
}

fn lookup_th(inner: Option<Phoneme>) -> (r: Option<&'static str>)
    ensures
        view_of(r) == row_th(inner),
{
    match inner {
        None => Some("ス"),
        Some(Phoneme::Aa) => Some("サ"),
        Some(Phoneme::Ah) => Some("サ"),
        Some(Phoneme::Ae) => Some("サ"),
        Some(Phoneme::Aw) => Some("サ"),
        Some(Phoneme::Ay) => Some("サイ"),
        Some(Phoneme::Er) => Some("シ"),
        Some(Phoneme::Iy) => Some("シ"),
        Some(Phoneme::Ih) => Some("シ"),
        Some(Phoneme::Uh) => Some("ス"),
        Some(Phoneme::Uw) => Some("ス"),
        Some(Phoneme::Eh) => Some("セ"),
        Some(Phoneme::Ey) => Some("セ"),
        Some(Phoneme::Ao) => Some("ソ"),
        Some(Phoneme::Ow) => Some("ソ"),
        Some(Phoneme::Oy) => Some("ソ"),
        _ => None,
    }
}

fn lookup_g(inner: Option<Phoneme>) -> (r: Option<&'static str>)
    ensures
        view_of(r) == row_g(inner),
{
    match inner {
        None => Some("グ"),
        Some(Phoneme::Aa) => Some("ガ"),
        Some(Phoneme::Ah) => Some("ガ"),
        Some(Phoneme::Ae) => Some("ガ"),
        Some(Phoneme::Aw) => Some("ガ"),
        Some(Phoneme::Ay) => Some("ガイ"),
        Some(Phoneme::Er) => Some("ギ"),
        Some(Phoneme::Iy) => Some("ギ"),
        Some(Phoneme::Ih) => Some("ギ"),
        Some(Phoneme::Uh) => Some("グ"),
        Some(Phoneme::Uw) => Some("グ"),
        Some(Phoneme::Eh) => Some("ゲ"),
        Some(Phoneme::Ey) => Some("ゲ"),
        Some(Phoneme::Ao) => Some("ゴ"),
        Some(Phoneme::Ow) => Some("ゴ"),
        Some(Phoneme::Oy) => Some("ゴ"),
        _ => None,
    }
}

fn lookup_ch(inner: Option<Phoneme>) -> (r: Option<&'static str>)
    ensures
        view_of(r) == row_ch(inner),
{
    match inner {
        None => Some("チ"),
        Some(Phoneme::Aa) => Some("チャ"),
        Some(Phoneme::Ah) => Some("チャ"),
        Some(Phoneme::Ae) => Some("チャ"),
        Some(Phoneme::Aw) => Some("チャ"),
        Some(Phoneme::Ay) => Some("チャイ"),
        Some(Phoneme::Er) => Some("チ"),
        Some(Phoneme::Iy) => Some("チ"),
        Some(Phoneme::Ih) => Some("チ"),
        Some(Phoneme::Uh) => Some("チュ"),
        Some(Phoneme::Uw) => Some("チュ"),
        Some(Phoneme::Eh) => Some("チェ"),
        Some(Phoneme::Ey) => Some("チェ"),
        Some(Phoneme::Ao) => Some("チョ"),
        Some(Phoneme::Ow) => Some("チョ"),
        Some(Phoneme::Oy) => Some("チョ"),
        _ => None,
    }
}

fn lookup_d(inner: Option<Phoneme>) -> (r: Option<&'static str>)
    ensures
        view_of(r) == row_d(inner),
{
    match inner {
        None => Some("ド"),
        Some(Phoneme::Aa) => Some("ダ"),
        Some(Phoneme::Ah) => Some("ダ"),
        Some(Phoneme::Ae) => Some("ダ"),
        Some(Phoneme::Aw) => Some("ダ"),
        Some(Phoneme::Ay) => Some("ダイ"),
        Some(Phoneme::Er) => Some("ダー"),
        Some(Phoneme::Iy) => Some("ディ"),
        Some(Phoneme::Ih) => Some("ディ"),
        Some(Phoneme::Uh) => Some("ドゥ"),
        Some(Phoneme::Uw) => Some("ドゥ"),
        Some(Phoneme::Eh) => Some("デ"),
        Some(Phoneme::Ey) => Some("デ"),
        Some(Phoneme::Ao) => Some("ド"),
        Some(Phoneme::Ow) => Some("ド"),
        Some(Phoneme::Oy) => Some("ド"),
        _ => None,
    }
}

fn lookup_b(inner: Option<Phoneme>) -> (r: Option<&'static str>)
    ensures
        view_of(r) == row_b(inner),
{
    match inner {
        None => Some("ブ"),
        Some(Phoneme::Aa) => Some("バ"),
        Some(Phoneme::Ah) => Some("バ"),
        Some(Phoneme::Ae) => Some("バ"),
        Some(Phoneme::Aw) => Some("バウ"),
        Some(Phoneme::Ay) => Some("バイ"),
        Some(Phoneme::Er) => Some("ビ"),
        Some(Phoneme::Iy) => Some("ビ"),
        Some(Phoneme::Ih) => Some("ビ"),
        Some(Phoneme::Uh) => Some("ブ"),
        Some(Phoneme::Uw) => Some("ブ"),
        Some(Phoneme::Eh) => Some("ベ"),
        Some(Phoneme::Ey) => Some("ベ"),
        Some(Phoneme::Ao) => Some("ボ"),
        Some(Phoneme::Ow) => Some("ボ"),
        Some(Phoneme::Oy) => Some("ボ"),
        _ => None,
    }
}

fn lookup_sh(inner: Option<Phoneme>) -> (r: Option<&'static str>)
    ensures
        view_of(r) == row_sh(inner),
{
    match inner {
        None => Some("シ"),
        Some(Phoneme::Aa) => Some("シャ"),
        Some(Phoneme::Ah) => Some("ショ"),
        Some(Phoneme::Ae) => Some("シャ"),
        Some(Phoneme::Aw) => Some("シャ"),
        Some(Phoneme::Ay) => Some("シャイ"),
        Some(Phoneme::Er) => Some("シ"),
        Some(Phoneme::Iy) => Some("シー"),
        Some(Phoneme::Ih) => Some("シ"),
        Some(Phoneme::Uh) => Some("シュ"),
        Some(Phoneme::Uw) => Some("シュ"),
        Some(Phoneme::Eh) => Some("シェ"),
        Some(Phoneme::Ey) => Some("シェ"),
        Some(Phoneme::Ao) => Some("ショ"),
        Some(Phoneme::Ow) => Some("ショ"),
        Some(Phoneme::Oy) => Some("ショ"),
        _ => None,
    }
}

fn lookup_f(inner: Option<Phoneme>) -> (r: Option<&'static str>)
    ensures
        view_of(r) == row_f(inner),
{
    match inner {
        None => Some("フ"),
        Some(Phoneme::Aa) => Some("ファ"),
        Some(Phoneme::Ah) => Some("ファ"),
        Some(Phoneme::Ae) => Some("ファ"),
        Some(Phoneme::Aw) => Some("ファ"),
        Some(Phoneme::Ay) => Some("ファイ"),
        Some(Phoneme::Er) => Some("フィ"),
        Some(Phoneme::Iy) => Some("フィ"),
        Some(Phoneme::Ih) => Some("フィ"),
        Some(Phoneme::Uh) => Some("フ"),
        Some(Phoneme::Uw) => Some("フ"),
        Some(Phoneme::Eh) => Some("フェ"),
        Some(Phoneme::Ey) => Some("フェ"),
        Some(Phoneme::Ao) => Some("フォ"),
        Some(Phoneme::Ow) => Some("フォ"),
        Some(Phoneme::Oy) => Some("フォ"),
        _ => None,
    }
}

fn lookup_k(inner: Option<Phoneme>) -> (r: Option<&'static str>)
    ensures
        view_of(r) == row_k(inner),
{
    match inner {
        None => Some("ク"),
        Some(Phoneme::Aa) => Some("カ"),
        Some(Phoneme::Ah) => Some("カ"),
        Some(Phoneme::Ae) => Some("カ"),
        Some(Phoneme::Aw) => Some("カ"),
        Some(Phoneme::Ay) => Some("カイ"),
        Some(Phoneme::Er) => Some("キ"),
        Some(Phoneme::Iy) => Some("キ"),
        Some(Phoneme::Ih) => Some("キ"),
        Some(Phoneme::Uh) => Some("ク"),
        Some(Phoneme::Uw) => Some("ク"),
        Some(Phoneme::Eh) => Some("ケ"),
        Some(Phoneme::Ey) => Some("ケ"),
        Some(Phoneme::Ao) => Some("コ"),
        Some(Phoneme::Ow) => Some("コ"),
        Some(Phoneme::Oy) => Some("コ"),
        _ => None,
    }
}

fn lookup_m(inner: Option<Phoneme>) -> (r: Option<&'static str>)
    ensures
        view_of(r) == row_m(inner),
{
    match inner {
        None => Some("ム"),
        Some(Phoneme::Aa) => Some("マ"),
        Some(Phoneme::Ah) => Some("マ"),
        Some(Phoneme::Ae) => Some("マ"),
        Some(Phoneme::Aw) => Some("マウ"),
        Some(Phoneme::Ay) => Some("マイ"),
        Some(Phoneme::Er) => Some("ミ"),
        Some(Phoneme::Iy) => Some("ミ"),
        Some(Phoneme::Ih) => Some("ミ"),
        Some(Phoneme::Uh) => Some("ム"),
        Some(Phoneme::Uw) => Some("ム"),
        Some(Phoneme::Eh) => Some("メ"),
        Some(Phoneme::Ey) => Some("メ"),
        Some(Phoneme::Ao) => Some("モ"),
        Some(Phoneme::Ow) => Some("モ"),
        Some(Phoneme::Oy) => Some("モ"),
        _ => None,
    }
}

fn lookup_r(inner: Option<Phoneme>) -> (r: Option<&'static str>)
    ensures
        view_of(r) == row_r(inner),
{
    match inner {
        None => Some("ー"),
        Some(Phoneme::Aa) => Some("ラ"),
        Some(Phoneme::Ah) => Some("ラ"),
        Some(Phoneme::Ae) => Some("ラ"),
        Some(Phoneme::Aw) => Some("ラ"),
        Some(Phoneme::Ay) => Some("ライ"),
        Some(Phoneme::Er) => Some("リ"),
        Some(Phoneme::Iy) => Some("リ"),
        Some(Phoneme::Ih) => Some("リ"),
        Some(Phoneme::Uh) => Some("ル"),
        Some(Phoneme::Uw) => Some("ル"),
        Some(Phoneme::Eh) => Some("レ"),
        Some(Phoneme::Ey) => Some("レ"),
        Some(Phoneme::Ao) => Some("ロ"),
        Some(Phoneme::Ow) => Some("ロ"),
        Some(Phoneme::Oy) => Some("ロ"),
        _ => None,
    }
}

fn lookup_v(inner: Option<Phoneme>) -> (r: Option<&'static str>)
    ensures
        view_of(r) == row_v(inner),
{
    match inner {
        None => Some("ブ"),
        Some(Phoneme::Aa) => Some("バ"),
        Some(Phoneme::Ah) => Some("バ"),
        Some(Phoneme::Ae) => Some("ヴァ"),
        Some(Phoneme::Aw) => Some("バ"),
        Some(Phoneme::Ay) => Some("バイ"),
        Some(Phoneme::Er) => Some("ビ"),
        Some(Phoneme::Iy) => Some("ビ"),
        Some(Phoneme::Ih) => Some("ビ"),
        Some(Phoneme::Uh) => Some("ブ"),
        Some(Phoneme::Uw) => Some("ブ"),
        Some(Phoneme::Eh) => Some("ベ"),
        Some(Phoneme::Ey) => Some("ベ"),
        Some(Phoneme::Ao) => Some("ボ"),
        Some(Phoneme::Ow) => Some("ボ"),
        Some(Phoneme::Oy) => Some("ボ"),
        _ => None,
    }
}

fn lookup_z(inner: Option<Phoneme>) -> (r: Option<&'static str>)
    ensures
        view_of(r) == row_z(inner),
{
    match inner {
        None => Some("ズ"),
        Some(Phoneme::Aa) => Some("ザ"),
        Some(Phoneme::Ah) => Some("ザ"),
        Some(Phoneme::Ae) => Some("ザ"),
        Some(Phoneme::Aw) => Some("ザ"),
        Some(Phoneme::Ay) => Some("ザイ"),
        Some(Phoneme::Er) => Some("ザー"),
        Some(Phoneme::Iy) => Some("ジ"),
        Some(Phoneme::Ih) => Some("ジ"),
        Some(Phoneme::Uh) => Some("ズ"),
        Some(Phoneme::Uw) => Some("ズ"),
        Some(Phoneme::Eh) => Some("ゼ"),
        Some(Phoneme::Ey) => Some("ゼ"),
        Some(Phoneme::Ao) => Some("ゾ"),
        Some(Phoneme::Ow) => Some("ゾ"),
        Some(Phoneme::Oy) => Some("ゾ"),
        _ => None,
    }
}

fn lookup_n(inner: Option<Phoneme>) -> (r: Option<&'static str>)
    ensures
        view_of(r) == row_n(inner),
{
    match inner {
        None => Some("ン"),
        Some(Phoneme::Aa) => Some("ナ"),
        Some(Phoneme::Ah) => Some("ナ"),
        Some(Phoneme::Ae) => Some("ナ"),
        Some(Phoneme::Aw) => Some("ナ"),
        Some(Phoneme::Ay) => Some("ナイ"),
        Some(Phoneme::Er) => Some("ニ"),
        Some(Phoneme::Iy) => Some("ニー"),
        Some(Phoneme::Ih) => Some("ニ"),
        Some(Phoneme::Uh) => Some("ヌ"),
        Some(Phoneme::Uw) => Some("ヌ"),
        Some(Phoneme::Eh) => Some("ネ"),
        Some(Phoneme::Ey) => Some("ネ"),
        Some(Phoneme::Ao) => Some("ノ"),
        Some(Phoneme::Ow) => Some("ノ"),
        Some(Phoneme::Oy) => Some("ノ"),
        _ => None,
    }
}

fn lookup_p(inner: Option<Phoneme>) -> (r: Option<&'static str>)
    ensures
        view_of(r) == row_p(inner),
{
    match inner {
        None => Some("プ"),
        Some(Phoneme::Aa) => Some("パ"),
        Some(Phoneme::Ah) => Some("パ"),
        Some(Phoneme::Ae) => Some("パ"),
        Some(Phoneme::Aw) => Some("パ"),
        Some(Phoneme::Ay) => Some("パイ"),
        Some(Phoneme::Er) => Some("ピ"),
        Some(Phoneme::Iy) => Some("ピ"),
        Some(Phoneme::Ih) => Some("ピ"),
        Some(Phoneme::Uh) => Some("プ"),
        Some(Phoneme::Uw) => Some("プ"),
        Some(Phoneme::Eh) => Some("ペ"),
        Some(Phoneme::Ey) => Some("ペ"),
        Some(Phoneme::Ao) => Some("ポ"),
        Some(Phoneme::Ow) => Some("ポ"),
        Some(Phoneme::Oy) => Some("ポ"),
        _ => None,
    }
}

fn lookup_jh(inner: Option<Phoneme>) -> (r: Option<&'static str>)
    ensures
        view_of(r) == row_jh(inner),
{
    match inner {
        None => Some("ジ"),
        Some(Phoneme::Aa) => Some("ジャ"),
        Some(Phoneme::Ah) => Some("ジャ"),
        Some(Phoneme::Ae) => Some("ジャ"),
        Some(Phoneme::Aw) => Some("ジャ"),
        Some(Phoneme::Ay) => Some("ジャイ"),
        Some(Phoneme::Er) => Some("ジ"),
        Some(Phoneme::Iy) => Some("ジ"),
        Some(Phoneme::Ih) => Some("ジ"),
        Some(Phoneme::Uh) => Some("ジュ"),
        Some(Phoneme::Uw) => Some("ジュ"),
        Some(Phoneme::Eh) => Some("ジェ"),
        Some(Phoneme::Ey) => Some("ジェ"),
        Some(Phoneme::Ao) => Some("ジョ"),
        Some(Phoneme::Ow) => Some("ジョ"),
        Some(Phoneme::Oy) => Some("ジョ"),
        _ => None,
    }
}

fn lookup_l(inner: Option<Phoneme>) -> (r: Option<&'static str>)
    ensures
        view_of(r) == row_l(inner),
{
    match inner {
        None => Some("ル"),
        Some(Phoneme::Aa) => Some("ラ"),
        Some(Phoneme::Ah) => Some("ラ"),
        Some(Phoneme::Ae) => Some("ラ"),
        Some(Phoneme::Aw) => Some("ラ"),
        Some(Phoneme::Ay) => Some("ライ"),
        Some(Phoneme::Er) => Some("ラー"),
        Some(Phoneme::Iy) => Some("リー"),
        Some(Phoneme::Ih) => Some("リ"),
        Some(Phoneme::Uh) => Some("ル"),
        Some(Phoneme::Uw) => Some("ル"),
        Some(Phoneme::Eh) => Some("レ"),
        Some(Phoneme::Ey) => Some("レ"),
        Some(Phoneme::Ao) => Some("ロ"),
        Some(Phoneme::Ow) => Some("ロー"),
        Some(Phoneme::Oy) => Some("ロ"),
        _ => None,
    }
}

fn lookup_hh(inner: Option<Phoneme>) -> (r: Option<&'static str>)
    ensures
        view_of(r) == row_hh(inner),
{
    match inner {
        None => Some("フ"),
        Some(Phoneme::Aa) => Some("ハ"),
        Some(Phoneme::Ah) => Some("ハ"),
        Some(Phoneme::Ae) => Some("ハ"),
        Some(Phoneme::Aw) => Some("ハウ"),
        Some(Phoneme::Ay) => Some("ハイ"),
        Some(Phoneme::Er) => Some("ハリ"),
        Some(Phoneme::Iy) => Some("ヒ"),
        Some(Phoneme::Ih) => Some("ヒ"),
        Some(Phoneme::Uh) => Some("フ"),
        Some(Phoneme::Uw) => Some("フ"),
        Some(Phoneme::Eh) => Some("ヘ"),
        Some(Phoneme::Ey) => Some("ヘ"),
        Some(Phoneme::Ao) => Some("ホ"),
        Some(Phoneme::Ow) => Some("ホ"),
        Some(Phoneme::Oy) => Some("ホ"),
        _ => None,
    }
}

fn lookup_s(inner: Option<Phoneme>) -> (r: Option<&'static str>)
    ensures
        view_of(r) == row_s(inner),
{
    match inner {
        None => Some("ス"),
        Some(Phoneme::Aa) => Some("タ"),
        Some(Phoneme::Ah) => Some("タ"),
        Some(Phoneme::Ae) => Some("サ"),
        Some(Phoneme::Aw) => Some("サ"),
        Some(Phoneme::Ay) => Some("サイ"),
        Some(Phoneme::Er) => Some("サ"),
        Some(Phoneme::Iy) => Some("シ"),
        Some(Phoneme::Ih) => Some("シ"),
        Some(Phoneme::Uh) => Some("ス"),
        Some(Phoneme::Uw) => Some("ス"),
        Some(Phoneme::Eh) => Some("セ"),
        Some(Phoneme::Ey) => Some("セイ"),
        Some(Phoneme::Ao) => Some("ソ"),
        Some(Phoneme::Ow) => Some("ソ"),
        Some(Phoneme::Oy) => Some("ソ"),
        _ => None,
    }
}

fn lookup_t(inner: Option<Phoneme>) -> (r: Option<&'static str>)
    ensures
        view_of(r) == row_t(inner),
{
    match inner {
        None => Some("ト"),
        Some(Phoneme::Aa) => Some("トッ"),
        Some(Phoneme::Ah) => Some("タ"),
        Some(Phoneme::Ae) => Some("タ"),
        Some(Phoneme::Aw) => Some("タ"),
        Some(Phoneme::Ay) => Some("タイ"),
        Some(Phoneme::Er) => Some("タ"),
        Some(Phoneme::Iy) => Some("ティ"),
        Some(Phoneme::Ih) => Some("ティ"),
        Some(Phoneme::Uh) => Some("チュ"),
        Some(Phoneme::Uw) => Some("チュ"),
        Some(Phoneme::Eh) => Some("テ"),
        Some(Phoneme::Ey) => Some("テ"),
        Some(Phoneme::Ao) => Some("ト"),
        Some(Phoneme::Ow) => Some("ト"),
        Some(Phoneme::Oy) => Some("ト"),
        _ => None,
    }
}

/// What an optional string slice holds, as characters.
pub open spec fn view_of(r: Option<&str>) -> Option<Seq<char>> {
    match r {
        Some(s) => Some(s@),
        None => None,
    }
}

/// Looks an entry up in the table.
pub fn lookup(outer: Phoneme, inner: Option<Phoneme>) -> (r: Option<&'static str>)
    ensures
        view_of(r) == fragment(outer, inner),
{
    match outer {
        Phoneme::Aa => lookup_aa(inner),
        Phoneme::Ah => lookup_ah(inner),
        Phoneme::Ae => lookup_ae(inner),
        Phoneme::Aw => lookup_aw(inner),
        Phoneme::Ay => lookup_ay(inner),
        Phoneme::Er => lookup_er(inner),
        Phoneme::Iy => lookup_iy(inner),
        Phoneme::Ih => lookup_ih(inner),
        Phoneme::Uh => lookup_uh(inner),
        Phoneme::Uw => lookup_uw(inner),
        Phoneme::Eh => lookup_eh(inner),
        Phoneme::Ey => lookup_ey(inner),
        Phoneme::Ao => lookup_ao(inner),
        Phoneme::Ow => lookup_ow(inner),
        Phoneme::Oy => lookup_oy(inner),
        Phoneme::Zh => lookup_zh(inner),
        Phoneme::Dh => lookup_dh(inner),
        Phoneme::W => lookup_w(inner),
        Phoneme::Ng => lookup_ng(inner),
        Phoneme::Y => lookup_y(inner),
        Phoneme::Th => lookup_th(inner),
        Phoneme::G => lookup_g(inner),
        Phoneme::Ch => lookup_ch(inner),
        Phoneme::D => lookup_d(inner),
        Phoneme::B => lookup_b(inner),
        Phoneme::Sh => lookup_sh(inner),
        Phoneme::F => lookup_f(inner),
        Phoneme::K => lookup_k(inner),
        Phoneme::M => lookup_m(inner),
        Phoneme::R => lookup_r(inner),
        Phoneme::V => lookup_v(inner),
        Phoneme::Z => lookup_z(inner),
        Phoneme::N => lookup_n(inner),
        Phoneme::P => lookup_p(inner),
        Phoneme::Jh => lookup_jh(inner),
        Phoneme::L => lookup_l(inner),
        Phoneme::Hh => lookup_hh(inner),
        Phoneme::S => lookup_s(inner),
        Phoneme::T => lookup_t(inner),
    }
}

proof fn lemma_row_aa_nonempty(inner: Option<Phoneme>)
    ensures
        row_aa(inner) matches Some(f) ==> f.len() > 0,
{
    reveal_strlit("アー");
    reveal_strlit("アイ");
    reveal_strlit("オウ");
}

proof fn lemma_row_ah_nonempty(inner: Option<Phoneme>)
    ensures
        row_ah(inner) matches Some(f) ==> f.len() > 0,
{
    reveal_strlit("ア");
    reveal_strlit("アエル");
    reveal_strlit("アッアウ");
}

proof fn lemma_row_ae_nonempty(inner: Option<Phoneme>)
    ensures
        row_ae(inner) matches Some(f) ==> f.len() > 0,
{
    reveal_strlit("ア");
}

proof fn lemma_row_aw_nonempty(inner: Option<Phoneme>)
    ensures
        row_aw(inner) matches Some(f) ==> f.len() > 0,
{
    reveal_strlit("オウ");
    reveal_strlit("アウア");
    reveal_strlit("アワー");
    reveal_strlit("アオイ");
    reveal_strlit("アウィ");
    reveal_strlit("アオウ");
}

proof fn lemma_row_ay_nonempty(inner: Option<Phoneme>)
    ensures
        row_ay(inner) matches Some(f) ==> f.len() > 0,
{
    reveal_strlit("アイ");
    reveal_strlit("アイア");
    reveal_strlit("アイェ");
    reveal_strlit("アイオウ");
    reveal_strlit("ウイェ");
    reveal_strlit("アイイ");
    reveal_strlit("アユ");
    reveal_strlit("アイオ");
}

proof fn lemma_row_er_nonempty(inner: Option<Phoneme>)
    ensures
        row_er(inner) matches Some(f) ==> f.len() > 0,
{
    reveal_strlit("アー");
    reveal_strlit("ア");
    reveal_strlit("アラ");
    reveal_strlit("アラウ");
    reveal_strlit("アライ");
    reveal_strlit("エリ");
    reveal_strlit("オロウ");
    reveal_strlit("ウル");
    reveal_strlit("オレ");
    reveal_strlit("アレイ");
    reveal_strlit("アロ");
    reveal_strlit("アロイ");
}

proof fn lemma_row_iy_nonempty(inner: Option<Phoneme>)
    ensures
        row_iy(inner) matches Some(f) ==> f.len() > 0,
{
    reveal_strlit("イー");
    reveal_strlit("イア");
    reveal_strlit("アイヤー");
    reveal_strlit("イイ");
    reveal_strlit("ー");
    reveal_strlit("イウ");
    reveal_strlit("イエ");
    reveal_strlit("イオ");
}

proof fn lemma_row_ih_nonempty(inner: Option<Phoneme>)
    ensures
        row_ih(inner) matches Some(f) ==> f.len() > 0,
{
    reveal_strlit("イ");
}

proof fn lemma_row_uh_nonempty(inner: Option<Phoneme>)
    ensures
        row_uh(inner) matches Some(f) ==> f.len() > 0,
{
    reveal_strlit("ウ");
    reveal_strlit("ウー");
}

proof fn lemma_row_uw_nonempty(inner: Option<Phoneme>)
    ensures
        row_uw(inner) matches Some(f) ==> f.len() > 0,
{
    reveal_strlit("ウ");
    reveal_strlit("ウア");
    reveal_strlit("ウー");
    reveal_strlit("ウアー");
    reveal_strlit("ウイ");
    reveal_strlit("ウエ");
}

proof fn lemma_row_eh_nonempty(inner: Option<Phoneme>)
    ensures
        row_eh(inner) matches Some(f) ==> f.len() > 0,
{
    reveal_strlit("エ");
    reveal_strlit("エオ");
}

proof fn lemma_row_ey_nonempty(inner: Option<Phoneme>)
    ensures
        row_ey(inner) matches Some(f) ==> f.len() > 0,
{
    reveal_strlit("エイ");
    reveal_strlit("エイアー");
    reveal_strlit("アヨウ");
    reveal_strlit("エアー");
    reveal_strlit("アー");
    reveal_strlit("エイオ");
    reveal_strlit("アオ");
}

proof fn lemma_row_ao_nonempty(inner: Option<Phoneme>)
    ensures
        row_ao(inner) matches Some(f) ==> f.len() > 0,
{
    reveal_strlit("オ");
    reveal_strlit("アオエ");
}

proof fn lemma_row_ow_nonempty(inner: Option<Phoneme>)
    ensures
        row_ow(inner) matches Some(f) ==> f.len() > 0,
{
    reveal_strlit("オー");
    reveal_strlit("オア");
    reveal_strlit("オエ");
    reveal_strlit("オイ");
    reveal_strlit("オーウィ");
    reveal_strlit("オウ");
    reveal_strlit("オフエ");
    reveal_strlit("オウエイ");
    reveal_strlit("オウォ");
}

proof fn lemma_row_oy_nonempty(inner: Option<Phoneme>)
    ensures
        row_oy(inner) matches Some(f) ==> f.len() > 0,
{
    reveal_strlit("オイ");
    reveal_strlit("オイヤー");
    reveal_strlit("オイエ");
    reveal_strlit("オヨ");
}

proof fn lemma_row_zh_nonempty(inner: Option<Phoneme>)
    ensures
        row_zh(inner) matches Some(f) ==> f.len() > 0,
{
    reveal_strlit("ジュ");
    reveal_strlit("ジャ");
    reveal_strlit("ジョ");
    reveal_strlit("ジャイ");
    reveal_strlit("ジェ");
    reveal_strlit("ジ");
}

proof fn lemma_row_dh_nonempty(inner: Option<Phoneme>)
    ensures
        row_dh(inner) matches Some(f) ==> f.len() > 0,
{
    reveal_strlit("ズ");
    reveal_strlit("ザ");
    reveal_strlit("ザイ");
    reveal_strlit("ザー");
    reveal_strlit("ジ");
    reveal_strlit("ゼ");
    reveal_strlit("ゾ");
}

proof fn lemma_row_w_nonempty(inner: Option<Phoneme>)
    ensures
        row_w(inner) matches Some(f) ==> f.len() > 0,
{
    reveal_strlit("ウ");
    reveal_strlit("ワ");
    reveal_strlit("ワイ");
    reveal_strlit("ウィ");
    reveal_strlit("ウェ");
    reveal_strlit("ウォ");
}

proof fn lemma_row_ng_nonempty(inner: Option<Phoneme>)
    ensures
        row_ng(inner) matches Some(f) ==> f.len() > 0,
{
    reveal_strlit("ング");
    reveal_strlit("ンガ");
    reveal_strlit("ンガイ");
    reveal_strlit("ンギ");
    reveal_strlit("ンゲ");
    reveal_strlit("ンゴ");
}

proof fn lemma_row_y_nonempty(inner: Option<Phoneme>)
    ensures
        row_y(inner) matches Some(f) ==> f.len() > 0,
{
    reveal_strlit("イ");
    reveal_strlit("ア");
    reveal_strlit("アイ");
    reveal_strlit("ュ");
    reveal_strlit("エ");
    reveal_strlit("ョ");
}

proof fn lemma_row_th_nonempty(inner: Option<Phoneme>)
    ensures
        row_th(inner) matches Some(f) ==> f.len() > 0,
{
    reveal_strlit("ス");
    reveal_strlit("サ");
    reveal_strlit("サイ");
    reveal_strlit("シ");
    reveal_strlit("セ");
    reveal_strlit("ソ");
}

proof fn lemma_row_g_nonempty(inner: Option<Phoneme>)
    ensures
        row_g(inner) matches Some(f) ==> f.len() > 0,
{
    reveal_strlit("グ");
    reveal_strlit("ガ");
    reveal_strlit("ガイ");
    reveal_strlit("ギ");
    reveal_strlit("ゲ");
    reveal_strlit("ゴ");
}

proof fn lemma_row_ch_nonempty(inner: Option<Phoneme>)
    ensures
        row_ch(inner) matches Some(f) ==> f.len() > 0,
{
    reveal_strlit("チ");
    reveal_strlit("チャ");
    reveal_strlit("チャイ");
    reveal_strlit("チュ");
    reveal_strlit("チェ");
    reveal_strlit("チョ");
}

proof fn lemma_row_d_nonempty(inner: Option<Phoneme>)
    ensures
        row_d(inner) matches Some(f) ==> f.len() > 0,
{
    reveal_strlit("ド");
    reveal_strlit("ダ");
    reveal_strlit("ダイ");
    reveal_strlit("ダー");
    reveal_strlit("ディ");
    reveal_strlit("ドゥ");
    reveal_strlit("デ");
}

proof fn lemma_row_b_nonempty(inner: Option<Phoneme>)
    ensures
        row_b(inner) matches Some(f) ==> f.len() > 0,
{
    reveal_strlit("ブ");
    reveal_strlit("バ");
    reveal_strlit("バウ");
    reveal_strlit("バイ");
    reveal_strlit("ビ");
    reveal_strlit("ベ");
    reveal_strlit("ボ");
}

proof fn lemma_row_sh_nonempty(inner: Option<Phoneme>)
    ensures
        row_sh(inner) matches Some(f) ==> f.len() > 0,
{
    reveal_strlit("シ");
    reveal_strlit("シャ");
    reveal_strlit("ショ");
    reveal_strlit("シャイ");
    reveal_strlit("シー");
    reveal_strlit("シュ");
    reveal_strlit("シェ");
}

proof fn lemma_row_f_nonempty(inner: Option<Phoneme>)
    ensures
        row_f(inner) matches Some(f) ==> f.len() > 0,
{
    reveal_strlit("フ");
    reveal_strlit("ファ");
    reveal_strlit("ファイ");
    reveal_strlit("フィ");
    reveal_strlit("フェ");
    reveal_strlit("フォ");
}

proof fn lemma_row_k_nonempty(inner: Option<Phoneme>)
    ensures
        row_k(inner) matches Some(f) ==> f.len() > 0,
{
    reveal_strlit("ク");
    reveal_strlit("カ");
    reveal_strlit("カイ");
    reveal_strlit("キ");
    reveal_strlit("ケ");
    reveal_strlit("コ");
}

proof fn lemma_row_m_nonempty(inner: Option<Phoneme>)
    ensures
        row_m(inner) matches Some(f) ==> f.len() > 0,
{
    reveal_strlit("ム");
    reveal_strlit("マ");
    reveal_strlit("マウ");
    reveal_strlit("マイ");
    reveal_strlit("ミ");
    reveal_strlit("メ");
    reveal_strlit("モ");
}

proof fn lemma_row_r_nonempty(inner: Option<Phoneme>)
    ensures
        row_r(inner) matches Some(f) ==> f.len() > 0,
{
    reveal_strlit("ー");
    reveal_strlit("ラ");
    reveal_strlit("ライ");
    reveal_strlit("リ");
    reveal_strlit("ル");
    reveal_strlit("レ");
    reveal_strlit("ロ");
}

proof fn lemma_row_v_nonempty(inner: Option<Phoneme>)
    ensures
        row_v(inner) matches Some(f) ==> f.len() > 0,
{
    reveal_strlit("ブ");
    reveal_strlit("バ");
    reveal_strlit("ヴァ");
    reveal_strlit("バイ");
    reveal_strlit("ビ");
    reveal_strlit("ベ");
    reveal_strlit("ボ");
}

proof fn lemma_row_z_nonempty(inner: Option<Phoneme>)
    ensures
        row_z(inner) matches Some(f) ==> f.len() > 0,
{
    reveal_strlit("ズ");
    reveal_strlit("ザ");
    reveal_strlit("ザイ");
    reveal_strlit("ザー");
    reveal_strlit("ジ");
    reveal_strlit("ゼ");
    reveal_strlit("ゾ");
}

proof fn lemma_row_n_nonempty(inner: Option<Phoneme>)
    ensures
        row_n(inner) matches Some(f) ==> f.len() > 0,
{
    reveal_strlit("ン");
    reveal_strlit("ナ");
    reveal_strlit("ナイ");
    reveal_strlit("ニ");
    reveal_strlit("ニー");
    reveal_strlit("ヌ");
    reveal_strlit("ネ");
    reveal_strlit("ノ");
}

proof fn lemma_row_p_nonempty(inner: Option<Phoneme>)
    ensures
        row_p(inner) matches Some(f) ==> f.len() > 0,
{
    reveal_strlit("プ");
    reveal_strlit("パ");
    reveal_strlit("パイ");
    reveal_strlit("ピ");
    reveal_strlit("ペ");
    reveal_strlit("ポ");
}

proof fn lemma_row_jh_nonempty(inner: Option<Phoneme>)
    ensures
        row_jh(inner) matches Some(f) ==> f.len() > 0,
{
    reveal_strlit("ジ");
    reveal_strlit("ジャ");
    reveal_strlit("ジャイ");
    reveal_strlit("ジュ");
    reveal_strlit("ジェ");
    reveal_strlit("ジョ");
}

proof fn lemma_row_l_nonempty(inner: Option<Phoneme>)
    ensures
        row_l(inner) matches Some(f) ==> f.len() > 0,
{
    reveal_strlit("ル");
    reveal_strlit("ラ");
    reveal_strlit("ライ");
    reveal_strlit("ラー");
    reveal_strlit("リー");
    reveal_strlit("リ");
    reveal_strlit("レ");
    reveal_strlit("ロ");
    reveal_strlit("ロー");
}

proof fn lemma_row_hh_nonempty(inner: Option<Phoneme>)
    ensures
        row_hh(inner) matches Some(f) ==> f.len() > 0,
{
    reveal_strlit("フ");
    reveal_strlit("ハ");
    reveal_strlit("ハウ");
    reveal_strlit("ハイ");
    reveal_strlit("ハリ");
    reveal_strlit("ヒ");
    reveal_strlit("ヘ");
    reveal_strlit("ホ");
}

proof fn lemma_row_s_nonempty(inner: Option<Phoneme>)
    ensures
        row_s(inner) matches Some(f) ==> f.len() > 0,
{
    reveal_strlit("ス");
    reveal_strlit("タ");
    reveal_strlit("サ");
    reveal_strlit("サイ");
    reveal_strlit("シ");
    reveal_strlit("セ");
    reveal_strlit("セイ");
    reveal_strlit("ソ");
}

proof fn lemma_row_t_nonempty(inner: Option<Phoneme>)
    ensures
        row_t(inner) matches Some(f) ==> f.len() > 0,
{
    reveal_strlit("ト");
    reveal_strlit("トッ");
    reveal_strlit("タ");
    reveal_strlit("タイ");
    reveal_strlit("ティ");
    reveal_strlit("チュ");
    reveal_strlit("テ");
}

/// No entry of the table is empty: whatever is looked up and found adds at
/// least one character to the output.
pub proof fn lemma_fragment_nonempty(outer: Phoneme, inner: Option<Phoneme>)
    ensures
        fragment(outer, inner) matches Some(f) ==> f.len() > 0,
{
    match outer {
        Phoneme::Aa => lemma_row_aa_nonempty(inner),
        Phoneme::Ah => lemma_row_ah_nonempty(inner),
        Phoneme::Ae => lemma_row_ae_nonempty(inner),
        Phoneme::Aw => lemma_row_aw_nonempty(inner),
        Phoneme::Ay => lemma_row_ay_nonempty(inner),
        Phoneme::Er => lemma_row_er_nonempty(inner),
        Phoneme::Iy => lemma_row_iy_nonempty(inner),
        Phoneme::Ih => lemma_row_ih_nonempty(inner),
        Phoneme::Uh => lemma_row_uh_nonempty(inner),
        Phoneme::Uw => lemma_row_uw_nonempty(inner),
        Phoneme::Eh => lemma_row_eh_nonempty(inner),
        Phoneme::Ey => lemma_row_ey_nonempty(inner),
        Phoneme::Ao => lemma_row_ao_nonempty(inner),
        Phoneme::Ow => lemma_row_ow_nonempty(inner),
        Phoneme::Oy => lemma_row_oy_nonempty(inner),
        Phoneme::Zh => lemma_row_zh_nonempty(inner),
        Phoneme::Dh => lemma_row_dh_nonempty(inner),
        Phoneme::W => lemma_row_w_nonempty(inner),
        Phoneme::Ng => lemma_row_ng_nonempty(inner),
        Phoneme::Y => lemma_row_y_nonempty(inner),
        Phoneme::Th => lemma_row_th_nonempty(inner),
        Phoneme::G => lemma_row_g_nonempty(inner),
        Phoneme::Ch => lemma_row_ch_nonempty(inner),
        Phoneme::D => lemma_row_d_nonempty(inner),
        Phoneme::B => lemma_row_b_nonempty(inner),
        Phoneme::Sh => lemma_row_sh_nonempty(inner),
        Phoneme::F => lemma_row_f_nonempty(inner),
        Phoneme::K => lemma_row_k_nonempty(inner),
        Phoneme::M => lemma_row_m_nonempty(inner),
        Phoneme::R => lemma_row_r_nonempty(inner),
        Phoneme::V => lemma_row_v_nonempty(inner),
        Phoneme::Z => lemma_row_z_nonempty(inner),
        Phoneme::N => lemma_row_n_nonempty(inner),
        Phoneme::P => lemma_row_p_nonempty(inner),
        Phoneme::Jh => lemma_row_jh_nonempty(inner),
        Phoneme::L => lemma_row_l_nonempty(inner),
        Phoneme::Hh => lemma_row_hh_nonempty(inner),
        Phoneme::S => lemma_row_s_nonempty(inner),
        Phoneme::T => lemma_row_t_nonempty(inner),
    }
}

/// Every phoneme has an entry for standing alone.
pub proof fn lemma_alone_is_covered(outer: Phoneme)
    ensures
        fragment(outer, None) is Some,
{
}

/// Every consonant has an entry for each vowel that may follow it.
pub proof fn lemma_consonant_row_is_complete(outer: Phoneme, inner: Phoneme)
    requires
        !outer.is_vowel(),
        inner.is_vowel(),
    ensures
        fragment(outer, Some(inner)) is Some,
{
}

/// Only a vowel, or nothing, is ever a key of a row.
pub proof fn lemma_inner_key_is_vowel(outer: Phoneme, inner: Phoneme)
    requires
        fragment(outer, Some(inner)) is Some,
    ensures
        inner.is_vowel(),
{
}

} // verus!
