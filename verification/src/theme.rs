//! Colour themes: the built-in one and those read from `#RRGGBB` texts.
use vstd::prelude::*;
use vstd::utf8::encode_utf8;

verus! {

/// The colours of a theme as written in its file, each `#RRGGBB`.
#[derive(Debug, Clone)]
pub struct ThemeConfig {
    pub background: String,
    pub text: String,
    pub primary: String,
    pub secondary: String,
    pub success: String,
    pub warning: String,
    pub error: String,
    pub border: String,
    pub muted: String,
}

/// A colour by its red, green and blue parts.
#[derive(Debug, Clone, Copy, PartialEq, Eq, Structural)]
pub struct Rgb {
    pub r: u8,
    pub g: u8,
    pub b: u8,
}

/// The colours in which the application is drawn.
#[derive(Debug, Clone, Copy, PartialEq, Eq, Structural)]
pub struct Theme {
    pub primary: Rgb,
    pub secondary: Rgb,
    pub background: Rgb,
    pub text: Rgb,
    pub success: Rgb,
    pub warning: Rgb,
    pub error: Rgb,
    pub border: Rgb,
    pub muted: Rgb,
}

/// Why a colour text was refused.
#[derive(Debug, Clone, PartialEq, Eq)]
pub enum ColorError {
    /// Without its leading `#`s the text (these bytes) is not six bytes long.
    InvalidLength(Vec<u8>),
    /// A part is not a number in base 16.
    InvalidDigit,
}

impl View for ColorError {
    /// The bytes of a text of the wrong length, or `None` for a bad digit.
    type V = Option<Seq<u8>>;

    open spec fn view(&self) -> Option<Seq<u8>> {
        match self {
            ColorError::InvalidLength(v) => Some(v@),
            ColorError::InvalidDigit => None,
        }
    }
}

/// The colour of its three parts.
pub open spec fn rgb(r: u8, g: u8, b: u8) -> Rgb {
    Rgb { r, g, b }
}

/// The built-in theme.
pub open spec fn default_theme() -> Theme {
    Theme {
        background: rgb(20, 20, 20),
        text: rgb(230, 230, 230),
        primary: rgb(100, 180, 255),
        secondary: rgb(180, 180, 180),
        success: rgb(100, 200, 100),
        warning: rgb(230, 200, 80),
        error: rgb(230, 90, 90),
        border: rgb(60, 60, 60),
        muted: rgb(120, 120, 120),
    }
}

impl Default for Theme {
    fn default() -> (r: Self)
        ensures
            r == default_theme(),
    {
        Theme {
            background: Rgb { r: 20, g: 20, b: 20 },
            text: Rgb { r: 230, g: 230, b: 230 },
            primary: Rgb { r: 100, g: 180, b: 255 },
            secondary: Rgb { r: 180, g: 180, b: 180 },
            success: Rgb { r: 100, g: 200, b: 100 },
            warning: Rgb { r: 230, g: 200, b: 80 },
            error: Rgb { r: 230, g: 90, b: 90 },
            border: Rgb { r: 60, g: 60, b: 60 },
            muted: Rgb { r: 120, g: 120, b: 120 },
        }
    }
}

/// The bytes with their leading `#`s removed.
pub open spec fn trim_hashes(bytes: Seq<u8>) -> Seq<u8>
    decreases bytes.len(),
{
    if bytes.len() > 0 && bytes[0] == 35u8 {
        trim_hashes(bytes.drop_first())
    } else {
        bytes
    }
}

/// The value of a digit in base 16 (`0-9`, `a-f`, `A-F`).
pub open spec fn hex_digit(b: u8) -> Option<int> {
    if 48 <= b <= 57 {
        Some(b - 48)
    } else if 97 <= b <= 102 {
        Some(b - 87)
    } else if 65 <= b <= 70 {
        Some(b - 55)
    } else {
        None
    }
}

/// A number in base 16 written in two bytes, as `u8::from_str_radix` reads
/// it: an optional `+` followed by digits only.
pub open spec fn hex_pair(b0: u8, b1: u8) -> Option<u8> {
    if b0 == 43u8 {
        match hex_digit(b1) {
            Some(d) => Some(d as u8),
            None => None,
        }
    } else {
        match (hex_digit(b0), hex_digit(b1)) {
            (Some(h), Some(l)) => Some((16 * h + l) as u8),
            _ => None,
        }
    }
}

/// The byte starts a character (it is no UTF-8 continuation byte).
pub open spec fn starts_char(b: u8) -> bool {
    !(0x80 <= b <= 0xbf)
}

/// The colour written in the bytes (`#RRGGBB`, with any number of leading
/// `#`s, each part an optional `+` and digits in base 16); the error is the
/// view of a `ColorError`.
pub open spec fn color_of(bytes: Seq<u8>) -> Result<Rgb, Option<Seq<u8>>> {
    let t = trim_hashes(bytes);
    if t.len() != 6 {
        Err(Some(t))
    } else {
        match (hex_pair(t[0], t[1]), hex_pair(t[2], t[3]), hex_pair(t[4], t[5])) {
            (Some(r), Some(g), Some(b)) => Ok(rgb(r, g, b)),
            _ => Err(None),
        }
    }
}

/// The result of reading a colour has the view `res`.
pub open spec fn color_result_is<T>(r: Result<T, ColorError>, res: Result<T, Option<Seq<u8>>>) -> bool {
    match res {
        Ok(c) => r == Ok::<T, ColorError>(c),
        Err(e) => r matches Err(x) && x@ == e,
    }
}

/// The text can be cut into its three parts: where it has six bytes, the
/// cuts after the second and, once the first part is read, the fourth byte
/// fall between characters.
pub open spec fn color_cuts_ok(bytes: Seq<u8>) -> bool {
    let t = trim_hashes(bytes);
    t.len() == 6 ==> starts_char(t[2]) && (hex_pair(t[0], t[1]) is Some ==> starts_char(t[4]))
}

proof fn lemma_trim_skip(bytes: Seq<u8>, k: int)
    requires
        0 <= k <= bytes.len(),
        forall|j: int| 0 <= j < k ==> bytes[j] == 35u8,
    ensures
        trim_hashes(bytes.skip(k)) == trim_hashes(bytes),
    decreases k,
{
    if k > 0 {
        assert(bytes[0] == 35u8);
        assert forall|j: int| 0 <= j < k - 1 implies bytes.drop_first()[j] == 35u8 by {
            assert(bytes.drop_first()[j] == bytes[j + 1]);
        }
        lemma_trim_skip(bytes.drop_first(), k - 1);
        assert(bytes.drop_first().skip(k - 1) =~= bytes.skip(k));
    } else {
        assert(bytes.skip(0) =~= bytes);
    }
}

/// The number of two bytes in base 16.
fn parse_hex_pair(b0: u8, b1: u8) -> (r: Option<u8>)
    ensures
        r == hex_pair(b0, b1),
{
    let lo = match hex_value(b1) {
        Some(d) => d,
        None => return None,
    };
    if b0 == 43u8 {
        return Some(lo);
    }
    match hex_value(b0) {
        Some(hi) => Some(hi * 16 + lo),
        None => None,
    }
}

fn hex_value(b: u8) -> (r: Option<u8>)
    ensures
        r matches Some(v) ==> v < 16,
        match hex_digit(b) {
            Some(d) => r == Some(d as u8),
            None => r is None,
        },
{
    if 48 <= b && b <= 57 {
        Some(b - 48)
    } else if 97 <= b && b <= 102 {
        Some(b - 87)
    } else if 65 <= b && b <= 70 {
        Some(b - 55)
    } else {
        None
    }
}

/// Reads a colour written `#RRGGBB`.
pub fn parse_color(value: &str) -> (r: Result<Rgb, ColorError>)
    requires
        color_cuts_ok(encode_utf8(value@)),
    ensures
        color_result_is(r, color_of(encode_utf8(value@))),
{
    let bytes = value.as_bytes();
    let ghost all = bytes@;
    let mut k: usize = 0;
    while k < bytes.len() && bytes[k] == 35u8
        invariant
            bytes@ == all,
            k <= bytes.len(),
            forall|j: int| 0 <= j < k ==> all[j] == 35u8,
        decreases bytes.len() - k,
    {
        k = k + 1;
    }
    proof {
        lemma_trim_skip(all, k as int);
        if k < bytes.len() {
            assert(all.skip(k as int)[0] != 35u8);
        }
        assert(trim_hashes(all.skip(k as int)) == all.skip(k as int));
    }
    if bytes.len() - k != 6 {
        let mut rest: Vec<u8> = Vec::new();
        let mut i: usize = k;
        while i < bytes.len()
            invariant
                bytes@ == all,
                k <= i <= bytes.len(),
                rest@ == all.subrange(k as int, i as int),
            decreases bytes.len() - i,
        {
            rest.push(bytes[i]);
            proof {
                assert(rest@ =~= all.subrange(k as int, i + 1));
            }
            i = i + 1;
        }
        proof {
            assert(rest@ =~= all.skip(k as int));
        }
        return Err(ColorError::InvalidLength(rest));
    }
    let r = match parse_hex_pair(bytes[k], bytes[k + 1]) {
        Some(v) => v,
        None => return Err(ColorError::InvalidDigit),
    };
    let g = match parse_hex_pair(bytes[k + 2], bytes[k + 3]) {
        Some(v) => v,
        None => return Err(ColorError::InvalidDigit),
    };
    let b = match parse_hex_pair(bytes[k + 4], bytes[k + 5]) {
        Some(v) => v,
        None => return Err(ColorError::InvalidDigit),
    };
    Ok(Rgb { r, g, b })
}

/// The texts of a theme file in the order in which they are read.
pub open spec fn config_texts(c: ThemeConfig) -> Seq<Seq<u8>> {
    seq![
        encode_utf8(c.background@),
        encode_utf8(c.text@),
        encode_utf8(c.primary@),
        encode_utf8(c.secondary@),
        encode_utf8(c.success@),
        encode_utf8(c.warning@),
        encode_utf8(c.error@),
        encode_utf8(c.border@),
        encode_utf8(c.muted@),
    ]
}

/// The colours of the texts, or the error of the first text that is refused.
pub open spec fn colors_of(texts: Seq<Seq<u8>>) -> Result<Seq<Rgb>, Option<Seq<u8>>>
    decreases texts.len(),
{
    if texts.len() == 0 {
        Ok(Seq::empty())
    } else {
        match color_of(texts[0]) {
            Err(e) => Err(e),
            Ok(c) => match colors_of(texts.drop_first()) {
                Err(e) => Err(e),
                Ok(cs) => Ok(seq![c].add(cs)),
            },
        }
    }
}

/// Each text is read only where all before it were read, and can then be cut.
pub open spec fn texts_cuts_ok(texts: Seq<Seq<u8>>) -> bool
    decreases texts.len(),
{
    texts.len() > 0 ==> color_cuts_ok(texts[0]) && (color_of(texts[0]) is Ok ==> texts_cuts_ok(texts.drop_first()))
}

/// The theme of the colours, in the order of `config_texts`.
pub open spec fn theme_of(cs: Seq<Rgb>) -> Theme {
    Theme {
        background: cs[0],
        text: cs[1],
        primary: cs[2],
        secondary: cs[3],
        success: cs[4],
        warning: cs[5],
        error: cs[6],
        border: cs[7],
        muted: cs[8],
    }
}

proof fn lemma_colors_prefix(texts: Seq<Seq<u8>>, i: int)
    requires
        0 <= i < texts.len(),
        colors_of(texts.take(i)) is Ok,
        texts_cuts_ok(texts),
    ensures
        color_cuts_ok(texts[i]),
        colors_of(texts.take(i + 1)) == match color_of(texts[i]) {
            Err(e) => Err(e),
            Ok(c) => Ok(colors_of(texts.take(i))->Ok_0.push(c)),
        },
    decreases i,
{
    let next = texts.take(i + 1);
    assert(next[0] == texts[0]);
    if i == 0 {
        assert(next.drop_first() =~= Seq::<Seq<u8>>::empty());
        assert(texts.take(0) =~= Seq::<Seq<u8>>::empty());
        assert(colors_of(Seq::<Seq<u8>>::empty()) == Ok::<Seq<Rgb>, Option<Seq<u8>>>(Seq::empty()));
        if let Ok(c) = color_of(texts[0]) {
            assert(seq![c].add(Seq::<Rgb>::empty()) =~= Seq::<Rgb>::empty().push(c));
        }
    } else {
        let tail = texts.drop_first();
        let prev = texts.take(i);
        assert(prev[0] == texts[0]);
        assert(prev.drop_first() =~= tail.take(i - 1));
        assert(next.drop_first() =~= tail.take(i));
        assert(color_of(texts[0]) is Ok);
        assert(texts_cuts_ok(tail));
        assert(colors_of(tail.take(i - 1)) is Ok);
        lemma_colors_prefix(tail, i - 1);
        assert(tail[i - 1] == texts[i]);
        let c0 = color_of(texts[0])->Ok_0;
        let before = colors_of(tail.take(i - 1))->Ok_0;
        assert(colors_of(prev) == Ok::<Seq<Rgb>, Option<Seq<u8>>>(seq![c0].add(before)));
        if let Ok(c) = color_of(texts[i]) {
            assert(seq![c0].add(before.push(c)) =~= seq![c0].add(before).push(c));
        }
    }
}

/// Whether the text can be cut into its three parts (see `color_cuts_ok`).
pub fn color_cuts_fine(value: &str) -> (r: bool)
    ensures
        r == color_cuts_ok(encode_utf8(value@)),
{
    let bytes = value.as_bytes();
    let ghost all = bytes@;
    let mut k: usize = 0;
    while k < bytes.len() && bytes[k] == 35u8
        invariant
            bytes@ == all,
            k <= bytes.len(),
            forall|j: int| 0 <= j < k ==> all[j] == 35u8,
        decreases bytes.len() - k,
    {
        k = k + 1;
    }
    proof {
        lemma_trim_skip(all, k as int);
        if k < bytes.len() {
            assert(all.skip(k as int)[0] != 35u8);
        }
        assert(trim_hashes(all.skip(k as int)) == all.skip(k as int));
    }
    if bytes.len() - k != 6 {
        return true;
    }
    let third = bytes[k + 2];
    if 0x80 <= third && third <= 0xbf {
        return false;
    }
    match parse_hex_pair(bytes[k], bytes[k + 1]) {
        Some(_) => {
            let fifth = bytes[k + 4];
            !(0x80 <= fifth && fifth <= 0xbf)
        },
        None => true,
    }
}

/// Whether every colour of the configuration that `Theme::try_from` reads
/// can be cut into its parts.
pub fn theme_cuts_fine(config: &ThemeConfig) -> (r: bool)
    ensures
        r == texts_cuts_ok(config_texts(*config)),
{
    let texts: Vec<&str> = vec![
        config.background.as_str(),
        config.text.as_str(),
        config.primary.as_str(),
        config.secondary.as_str(),
        config.success.as_str(),
        config.warning.as_str(),
        config.error.as_str(),
        config.border.as_str(),
        config.muted.as_str(),
    ];
    let ghost all = config_texts(*config);
    let mut i: usize = 9;
    let mut fine = true;
    proof {
        assert(all.skip(9) =~= Seq::<Seq<u8>>::empty());
    }
    while i > 0
        invariant
            texts.len() == 9,
            all == config_texts(*config),
            all.len() == 9,
            forall|j: int| 0 <= j < 9 ==> encode_utf8((#[trigger] texts@[j])@) == all[j],
            i <= 9,
            fine == texts_cuts_ok(all.skip(i as int)),
        decreases i,
    {
        let t = texts[i - 1];
        let cut = color_cuts_fine(t);
        let read = match parse_color_checked(t, cut) {
            Some(ok) => ok,
            None => true,
        };
        proof {
            let s = all.skip(i - 1);
            assert(s[0] == all[i - 1]);
            assert(s.drop_first() =~= all.skip(i as int));
        }
        fine = cut && (!read || fine);
        i = i - 1;
    }
    proof {
        assert(all.skip(0) =~= all);
    }
    fine
}

/// Whether the colour text is read, where it can be cut; `None` where not.
fn parse_color_checked(value: &str, cut: bool) -> (r: Option<bool>)
    requires
        cut == color_cuts_ok(encode_utf8(value@)),
    ensures
        cut ==> r == Some(color_of(encode_utf8(value@)) is Ok),
        !cut ==> r is None,
{
    if cut {
        Some(parse_color(value).is_ok())
    } else {
        None
    }
}

impl Theme {
    /// The theme written in the configuration: each colour is read in the
    /// order of `config_texts`, and the first that is refused is the error.
    pub fn try_from(config: ThemeConfig) -> (r: Result<Theme, ColorError>)
        requires
            texts_cuts_ok(config_texts(config)),
        ensures
            color_result_is(r, match colors_of(config_texts(config)) {
                Ok(cs) => Ok(theme_of(cs)),
                Err(e) => Err(e),
            }),
    {
        let texts: Vec<&str> = vec![
            config.background.as_str(),
            config.text.as_str(),
            config.primary.as_str(),
            config.secondary.as_str(),
            config.success.as_str(),
            config.warning.as_str(),
            config.error.as_str(),
            config.border.as_str(),
            config.muted.as_str(),
        ];
        let ghost all = config_texts(config);
        let mut colors: Vec<Rgb> = Vec::new();
        let mut i: usize = 0;
        while i < texts.len()
            invariant
                texts.len() == 9,
                all == config_texts(config),
                all.len() == 9,
                forall|j: int| 0 <= j < 9 ==> encode_utf8((#[trigger] texts@[j])@) == all[j],
                texts_cuts_ok(all),
                i <= 9,
                colors@.len() == i,
                colors_of(all.take(i as int)) == Ok::<Seq<Rgb>, Option<Seq<u8>>>(colors@),
            decreases 9 - i,
        {
            proof {
                lemma_colors_prefix(all, i as int);
            }
            match parse_color(texts[i]) {
                Ok(c) => colors.push(c),
                Err(e) => {
                    proof {
                        assert(encode_utf8(texts@[i as int]@) == all[i as int]);
                        assert(color_of(all[i as int]) is Err);
                        lemma_colors_first_error(all, i as int);
                    }
                    return Err(e);
                },
            }
            i = i + 1;
        }
        proof {
            assert(all.take(9) =~= all);
        }
        Ok(Theme {
            background: colors[0],
            text: colors[1],
            primary: colors[2],
            secondary: colors[3],
            success: colors[4],
            warning: colors[5],
            error: colors[6],
            border: colors[7],
            muted: colors[8],
        })
    }
}

proof fn lemma_colors_first_error(texts: Seq<Seq<u8>>, i: int)
    requires
        0 <= i < texts.len(),
        colors_of(texts.take(i)) is Ok,
        color_of(texts[i]) is Err,
    ensures
        colors_of(texts) == Err::<Seq<Rgb>, Option<Seq<u8>>>(color_of(texts[i])->Err_0),
    decreases i,
{
    if i > 0 {
        let tail = texts.drop_first();
        assert(texts.take(i).drop_first() =~= tail.take(i - 1));
        assert(texts.take(i)[0] == texts[0]);
        assert(color_of(texts[0]) is Ok);
        assert(tail[i - 1] == texts[i]);
        lemma_colors_first_error(tail, i - 1);
    }
}

} // verus!
