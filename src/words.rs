//! The two bilingual word tables. Each word is a pair of its Persian-script
//! form and its Latin transliteration.

use vstd::prelude::*;

verus! {

/// One word of a table, in Persian script and in Latin transliteration.
#[derive(Clone, Copy)]
pub struct WordEntry {
    pub native: &'static str,
    pub latin: &'static str,
}

/// Number of nouns.
pub const NOUN_COUNT: usize = 46;

/// Number of adjectives.
pub const ADJECTIVE_COUNT: usize = 59;

pub const NOUN_JOOJE: (&'static str, &'static str) = ("جوجه", "jooje");
pub const NOUN_PASHE: (&'static str, &'static str) = ("پشه", "pashe");
pub const NOUN_SIBZAMINI: (&'static str, &'static str) = ("سیب\u{200c}زمینی", "sibzamini");
pub const NOUN_PARANDE: (&'static str, &'static str) = ("پرنده", "parande");
pub const NOUN_HALAZOON: (&'static str, &'static str) = ("حلزون", "halazoon");
pub const NOUN_KHARGOOSH: (&'static str, &'static str) = ("خرگوش", "khargoosh");
pub const NOUN_ASB: (&'static str, &'static str) = ("اسب", "asb");
pub const NOUN_TOOTI: (&'static str, &'static str) = ("طوطی", "tooti");
pub const NOUN_GAVAZN: (&'static str, &'static str) = ("گوزن", "gavazn");
pub const NOUN_AHOO: (&'static str, &'static str) = ("آهو", "ahoo");
pub const NOUN_FIL: (&'static str, &'static str) = ("فیل", "fil");
pub const NOUN_MOORCHE: (&'static str, &'static str) = ("مورچه", "moorche");
pub const NOUN_MOORCHEKHAR: (&'static str, &'static str) = ("مورچه\u{200c}خوار", "moorchekhar");
pub const NOUN_MOOSH: (&'static str, &'static str) = ("موش", "moosh");
pub const NOUN_GORBE: (&'static str, &'static str) = ("گربه", "gorbe");
pub const NOUN_SAG: (&'static str, &'static str) = ("سگ", "sag");
pub const NOUN_MAHI: (&'static str, &'static str) = ("ماهی", "mahi");
pub const NOUN_MORGHEDARYAYI: (&'static str, &'static str) = ("مرغ\u{200c}دریایی", "morghedaryayi");
pub const NOUN_ASBEABI: (&'static str, &'static str) = ("اسب آبی", "asbeabi");
pub const NOUN_FILEABI: (&'static str, &'static str) = ("فیل آبی", "fileabi");
pub const NOUN_ZARAFE: (&'static str, &'static str) = ("زرافه", "zarafe");
pub const NOUN_OKHTAPOOS: (&'static str, &'static str) = ("اختاپوس", "okhtapoos");
pub const NOUN_DALGHAK: (&'static str, &'static str) = ("دلقک", "dalghak");
pub const NOUN_KARGADAN: (&'static str, &'static str) = ("کرگدن", "kargadan");
pub const NOUN_MOHAJER: (&'static str, &'static str) = ("مهاجر", "mohajer");
pub const NOUN_MATARSAK: (&'static str, &'static str) = ("مترسک", "matarsak");
pub const NOUN_SHAPARAK: (&'static str, &'static str) = ("شاپرک", "shaparak");
pub const NOUN_KABOOTAR: (&'static str, &'static str) = ("کبوتر", "kabootar");
pub const NOUN_PARVANE: (&'static str, &'static str) = ("پروانه", "parvane");
pub const NOUN_GHOORBAGHE: (&'static str, &'static str) = ("قورباغه", "ghoorbaghe");
pub const NOUN_SHAHIN: (&'static str, &'static str) = ("شاهین", "shahin");
pub const NOUN_SIMORGH: (&'static str, &'static str) = ("سیمرغ", "simorgh");
pub const NOUN_SANJAB: (&'static str, &'static str) = ("سنجاب", "sanjab");
pub const NOUN_YOOZ: (&'static str, &'static str) = ("یوز", "yooz");
pub const NOUN_GHERGHI: (&'static str, &'static str) = ("قرقی", "gherghi");
pub const NOUN_TEMSAH: (&'static str, &'static str) = ("تمساح", "temsah");
pub const NOUN_BARNAMENEVIS: (&'static str, &'static str) = ("برنامه\u{200c}نویس", "barnamenevis");
pub const NOUN_HACKER: (&'static str, &'static str) = ("هکر", "hacker");
pub const NOUN_DARKOOB: (&'static str, &'static str) = ("دارکوب", "darkoob");
pub const NOUN_ZANBOOR: (&'static str, &'static str) = ("زنبور", "zanboor");
pub const NOUN_SAAGHI: (&'static str, &'static str) = ("ساقی", "saaghi");
pub const NOUN_MEYMOONAK: (&'static str, &'static str) = ("میمونک", "meymoonak");
pub const NOUN_NAHANG: (&'static str, &'static str) = ("نهنگ", "nahang");
pub const NOUN_ADAMAK: (&'static str, &'static str) = ("آدمک", "adamak");
pub const NOUN_MOSAFER: (&'static str, &'static str) = ("مسافر", "mosafer");
pub const NOUN_NABEGHE: (&'static str, &'static str) = ("نابغه", "nabeghe");

pub const ADJ_GERYAN: (&'static str, &'static str) = ("گریان", "geryan");
pub const ADJ_KHANDAN: (&'static str, &'static str) = ("خندان", "khandan");
pub const ADJ_HOSHYAR: (&'static str, &'static str) = ("هشیار", "hoshyar");
pub const ADJ_DIVANE: (&'static str, &'static str) = ("دیوانه", "divane");
pub const ADJ_PORMASHGHALE: (&'static str, &'static str) = ("پرمشغله", "pormashghale");
pub const ADJ_KHOSHFEKR: (&'static str, &'static str) = ("خوشفکر", "khoshfekr");
pub const ADJ_MABHOOT: (&'static str, &'static str) = ("مبهوت", "mabhoot");
pub const ADJ_DOOSTDASHTANI: (&'static str, &'static str) = ("دوست\u{200c}داشتنی", "doostdashtani");
pub const ADJ_KHASTE: (&'static str, &'static str) = ("خسته", "khaste");
pub const ADJ_KONJKAV: (&'static str, &'static str) = ("کنجکاو", "konjkav");
pub const ADJ_NEGARAN: (&'static str, &'static str) = ("نگران", "negaran");
pub const ADJ_OMIDVAR: (&'static str, &'static str) = ("امیدوار", "omidvar");
pub const ADJ_MEHRABAN: (&'static str, &'static str) = ("مهربان", "mehraban");
pub const ADJ_TIZPA: (&'static str, &'static str) = ("تیزپا", "tizpa");
pub const ADJ_HOOSHMAND: (&'static str, &'static str) = ("هوشمند", "hooshmand");
pub const ADJ_SHAER: (&'static str, &'static str) = ("شاعر", "shaer");
pub const ADJ_DAROON: (&'static str, &'static str) = ("درون", "daroon");
pub const ADJ_BIHAMTA: (&'static str, &'static str) = ("بی\u{200c}همتا", "bihamta");
pub const ADJ_BINAZIR: (&'static str, &'static str) = ("بی\u{200c}نظیر", "binazir");
pub const ADJ_KHEJALATI: (&'static str, &'static str) = ("خجالتی", "khejalati");
pub const ADJ_SIRINAPAZIR: (&'static str, &'static str) = ("سیری\u{200c}ناپذیر", "sirinapazir");
pub const ADJ_ZIBA: (&'static str, &'static str) = ("زیبا", "ziba");
pub const ADJ_ANDISHMAND: (&'static str, &'static str) = ("اندیشمند", "andishmand");
pub const ADJ_SABOOR: (&'static str, &'static str) = ("صبور", "saboor");
pub const ADJ_SEHRAMIZ: (&'static str, &'static str) = ("سحرآمیز", "sehramiz");
pub const ADJ_BORDBAR: (&'static str, &'static str) = ("بردبار", "bordbar");
pub const ADJ_DELSOOZ: (&'static str, &'static str) = ("دلسوز", "delsooz");
pub const ADJ_ZOODRANJ: (&'static str, &'static str) = ("زودرنج", "zoodranj");
pub const ADJ_KHOSHMASHRAB: (&'static str, &'static str) = ("خوش\u{200c}مشرب", "khoshmashrab");
pub const ADJ_GOSHADEROO: (&'static str, &'static str) = ("گشاده\u{200c}رو", "goshaderoo");
pub const ADJ_SHOJA: (&'static str, &'static str) = ("شجاع", "shoja");
pub const ADJ_DASHTODELBAZ: (&'static str, &'static str) = ("دست و دلباز", "dashtodelbaz");
pub const ADJ_PORHARF: (&'static str, &'static str) = ("پرحرف", "porharf");
pub const ADJ_BANAMAK: (&'static str, &'static str) = ("بانمک", "banamak");
pub const ADJ_CHARBZABAN: (&'static str, &'static str) = ("چرب\u{200c}زبان", "charbzaban");
pub const ADJ_KHOSHSHANS: (&'static str, &'static str) = ("خوش\u{200c}شانس", "khoshshans");
pub const ADJ_KHOSHEGHBAL: (&'static str, &'static str) = ("خوش\u{200c}اقبال", "khosheghbal");
pub const ADJ_SHOOKHTAB: (&'static str, &'static str) = ("شوخ\u{200c}طبع", "shookhtab");
pub const ADJ_KHABALOO: (&'static str, &'static str) = ("خوابآلو", "khabaloo");
pub const ADJ_KHERADMAND: (&'static str, &'static str) = ("خردمند", "kheradmand");
pub const ADJ_MASHKOOK: (&'static str, &'static str) = ("مشکوک", "mashkook");
pub const ADJ_BAZLEGOO: (&'static str, &'static str) = ("بذله\u{200c}گو", "bazlegoo");
pub const ADJ_JAZAB: (&'static str, &'static str) = ("جذاب", "jazab");
pub const ADJ_HAVASPART: (&'static str, &'static str) = ("حواس\u{200c}پرت", "havaspart");
pub const ADJ_GHAMGIN: (&'static str, &'static str) = ("غمگین", "ghamgin");
pub const ADJ_BAVAFA: (&'static str, &'static str) = ("باوفا", "bavafa");
pub const ADJ_VAFADAR: (&'static str, &'static str) = ("وفادار", "vafadar");
pub const ADJ_MOMEN: (&'static str, &'static str) = ("مؤمن", "momen");
pub const ADJ_FANANAPAZIR: (&'static str, &'static str) = ("فناناپذیر", "fananapazir");
pub const ADJ_GHADIMI: (&'static str, &'static str) = ("قدیمی", "ghadimi");
pub const ADJ_KHOSHNAM: (&'static str, &'static str) = ("خوشنام", "khoshnam");
pub const ADJ_JASOOR: (&'static str, &'static str) = ("جسور", "jasoor");
pub const ADJ_KHASTEGINAPAZIR: (&'static str, &'static str) = ("خستگی\u{200c}ناپذیر", "khasteginapazir");
pub const ADJ_RIZNAQSH: (&'static str, &'static str) = ("ریزنقش", "riznaqsh");
pub const ADJ_BOLANDPARVAZ: (&'static str, &'static str) = ("بلندپرواز", "bolandparvaz");
pub const ADJ_BIPARVA: (&'static str, &'static str) = ("بی\u{200c}پروا", "biparva");
pub const ADJ_TASLIMNAPAZIR: (&'static str, &'static str) = ("تسلیم\u{200c}ناپذیر", "taslimnapazir");
pub const ADJ_SEMEJ: (&'static str, &'static str) = ("سمج", "semej");
pub const ADJ_BAZIGOOSH: (&'static str, &'static str) = ("بازیگوش", "bazigoosh");

/// The nouns a name starts with, as (Persian script, Latin transliteration).
pub const NOUNS: [(&'static str, &'static str); NOUN_COUNT] = [
    NOUN_JOOJE, NOUN_PASHE, NOUN_SIBZAMINI, NOUN_PARANDE, NOUN_HALAZOON, NOUN_KHARGOOSH, NOUN_ASB,
    NOUN_TOOTI, NOUN_GAVAZN, NOUN_AHOO, NOUN_FIL, NOUN_MOORCHE, NOUN_MOORCHEKHAR, NOUN_MOOSH,
    NOUN_GORBE, NOUN_SAG, NOUN_MAHI, NOUN_MORGHEDARYAYI, NOUN_ASBEABI, NOUN_FILEABI, NOUN_ZARAFE,
    NOUN_OKHTAPOOS, NOUN_DALGHAK, NOUN_KARGADAN, NOUN_MOHAJER, NOUN_MATARSAK, NOUN_SHAPARAK,
    NOUN_KABOOTAR, NOUN_PARVANE, NOUN_GHOORBAGHE, NOUN_SHAHIN, NOUN_SIMORGH, NOUN_SANJAB, NOUN_YOOZ,
    NOUN_GHERGHI, NOUN_TEMSAH, NOUN_BARNAMENEVIS, NOUN_HACKER, NOUN_DARKOOB, NOUN_ZANBOOR,
    NOUN_SAAGHI, NOUN_MEYMOONAK, NOUN_NAHANG, NOUN_ADAMAK, NOUN_MOSAFER, NOUN_NABEGHE,
];

/// The adjectives that follow the noun, as (Persian script, Latin transliteration).
pub const ADJECTIVES: [(&'static str, &'static str); ADJECTIVE_COUNT] = [
    ADJ_GERYAN, ADJ_KHANDAN, ADJ_HOSHYAR, ADJ_DIVANE, ADJ_PORMASHGHALE, ADJ_KHOSHFEKR, ADJ_MABHOOT,
    ADJ_DOOSTDASHTANI, ADJ_KHASTE, ADJ_KONJKAV, ADJ_NEGARAN, ADJ_OMIDVAR, ADJ_MEHRABAN, ADJ_TIZPA,
    ADJ_HOOSHMAND, ADJ_SHAER, ADJ_DAROON, ADJ_BIHAMTA, ADJ_BINAZIR, ADJ_KHEJALATI, ADJ_SIRINAPAZIR,
    ADJ_ZIBA, ADJ_ANDISHMAND, ADJ_SABOOR, ADJ_SEHRAMIZ, ADJ_BORDBAR, ADJ_DELSOOZ, ADJ_ZOODRANJ,
    ADJ_KHOSHMASHRAB, ADJ_GOSHADEROO, ADJ_SHOJA, ADJ_DASHTODELBAZ, ADJ_PORHARF, ADJ_BANAMAK,
    ADJ_CHARBZABAN, ADJ_KHOSHSHANS, ADJ_KHOSHEGHBAL, ADJ_SHOOKHTAB, ADJ_KHABALOO, ADJ_KHERADMAND,
    ADJ_MASHKOOK, ADJ_BAZLEGOO, ADJ_JAZAB, ADJ_HAVASPART, ADJ_GHAMGIN, ADJ_BAVAFA, ADJ_VAFADAR,
    ADJ_MOMEN, ADJ_FANANAPAZIR, ADJ_GHADIMI, ADJ_KHOSHNAM, ADJ_JASOOR, ADJ_KHASTEGINAPAZIR,
    ADJ_RIZNAQSH, ADJ_BOLANDPARVAZ, ADJ_BIPARVA, ADJ_TASLIMNAPAZIR, ADJ_SEMEJ, ADJ_BAZIGOOSH,
];

pub open spec fn word_entry(pair: (&'static str, &'static str)) -> WordEntry {
    WordEntry { native: pair.0, latin: pair.1 }
}

/// The noun at `i`.
pub open spec fn noun_entry(i: int) -> WordEntry {
    word_entry(NOUNS[i])
}

/// The adjective at `i`.
pub open spec fn adjective_entry(i: int) -> WordEntry {
    word_entry(ADJECTIVES[i])
}

/// The noun at `i`, in both scripts.
pub fn noun_word(i: usize) -> (r: WordEntry)
    requires
        i < NOUN_COUNT,
    ensures
        r == noun_entry(i as int),
{
    let (native, latin) = NOUNS[i];
    WordEntry { native, latin }
}

/// The adjective at `i`, in both scripts.
pub fn adjective_word(i: usize) -> (r: WordEntry)
    requires
        i < ADJECTIVE_COUNT,
    ensures
        r == adjective_entry(i as int),
{
    let (native, latin) = ADJECTIVES[i];
    WordEntry { native, latin }
}

pub open spec fn is_ascii_digit(c: char) -> bool {
    '0' <= c && c <= '9'
}

pub open spec fn is_ascii_lower(c: char) -> bool {
    'a' <= c && c <= 'z'
}

/// A Persian-script word: not empty, and free of ASCII digits.
pub open spec fn is_native_word(w: Seq<char>) -> bool {
    w.len() > 0 && forall|k: int| 0 <= k < w.len() ==> !is_ascii_digit(#[trigger] w[k])
}

/// A Latin transliteration: one or more ASCII lowercase letters.
pub open spec fn is_latin_word(w: Seq<char>) -> bool {
    w.len() > 0 && forall|k: int| 0 <= k < w.len() ==> is_ascii_lower(#[trigger] w[k])
}

pub open spec fn is_word_entry(e: WordEntry) -> bool {
    is_native_word(e.native@) && is_latin_word(e.latin@)
}

/// Every noun entry is a well-formed word pair.
pub proof fn lemma_nouns_well_formed()
    ensures
        forall|i: int| 0 <= i < NOUN_COUNT ==> #[trigger] is_word_entry(noun_entry(i)),
{
    reveal_strlit("جوجه");
    reveal_strlit("jooje");
    assert(is_word_entry(word_entry(NOUN_JOOJE)));
    reveal_strlit("پشه");
    reveal_strlit("pashe");
    assert(is_word_entry(word_entry(NOUN_PASHE)));
    reveal_strlit("سیب\u{200c}زمینی");
    reveal_strlit("sibzamini");
    assert(is_word_entry(word_entry(NOUN_SIBZAMINI)));
    reveal_strlit("پرنده");
    reveal_strlit("parande");
    assert(is_word_entry(word_entry(NOUN_PARANDE)));
    reveal_strlit("حلزون");
    reveal_strlit("halazoon");
    assert(is_word_entry(word_entry(NOUN_HALAZOON)));
    reveal_strlit("خرگوش");
    reveal_strlit("khargoosh");
    assert(is_word_entry(word_entry(NOUN_KHARGOOSH)));
    reveal_strlit("اسب");
    reveal_strlit("asb");
    assert(is_word_entry(word_entry(NOUN_ASB)));
    reveal_strlit("طوطی");
    reveal_strlit("tooti");
    assert(is_word_entry(word_entry(NOUN_TOOTI)));
    reveal_strlit("گوزن");
    reveal_strlit("gavazn");
    assert(is_word_entry(word_entry(NOUN_GAVAZN)));
    reveal_strlit("آهو");
    reveal_strlit("ahoo");
    assert(is_word_entry(word_entry(NOUN_AHOO)));
    reveal_strlit("فیل");
    reveal_strlit("fil");
    assert(is_word_entry(word_entry(NOUN_FIL)));
    reveal_strlit("مورچه");
    reveal_strlit("moorche");
    assert(is_word_entry(word_entry(NOUN_MOORCHE)));
    reveal_strlit("مورچه\u{200c}خوار");
    reveal_strlit("moorchekhar");
    assert(is_word_entry(word_entry(NOUN_MOORCHEKHAR)));
    reveal_strlit("موش");
    reveal_strlit("moosh");
    assert(is_word_entry(word_entry(NOUN_MOOSH)));
    reveal_strlit("گربه");
    reveal_strlit("gorbe");
    assert(is_word_entry(word_entry(NOUN_GORBE)));
    reveal_strlit("سگ");
    reveal_strlit("sag");
    assert(is_word_entry(word_entry(NOUN_SAG)));
    reveal_strlit("ماهی");
    reveal_strlit("mahi");
    assert(is_word_entry(word_entry(NOUN_MAHI)));
    reveal_strlit("مرغ\u{200c}دریایی");
    reveal_strlit("morghedaryayi");
    assert(is_word_entry(word_entry(NOUN_MORGHEDARYAYI)));
    reveal_strlit("اسب آبی");
    reveal_strlit("asbeabi");
    assert(is_word_entry(word_entry(NOUN_ASBEABI)));
    reveal_strlit("فیل آبی");
    reveal_strlit("fileabi");
    assert(is_word_entry(word_entry(NOUN_FILEABI)));
    reveal_strlit("زرافه");
    reveal_strlit("zarafe");
    assert(is_word_entry(word_entry(NOUN_ZARAFE)));
    reveal_strlit("اختاپوس");
    reveal_strlit("okhtapoos");
    assert(is_word_entry(word_entry(NOUN_OKHTAPOOS)));
    reveal_strlit("دلقک");
    reveal_strlit("dalghak");
    assert(is_word_entry(word_entry(NOUN_DALGHAK)));
    reveal_strlit("کرگدن");
    reveal_strlit("kargadan");
    assert(is_word_entry(word_entry(NOUN_KARGADAN)));
    reveal_strlit("مهاجر");
    reveal_strlit("mohajer");
    assert(is_word_entry(word_entry(NOUN_MOHAJER)));
    reveal_strlit("مترسک");
    reveal_strlit("matarsak");
    assert(is_word_entry(word_entry(NOUN_MATARSAK)));
    reveal_strlit("شاپرک");
    reveal_strlit("shaparak");
    assert(is_word_entry(word_entry(NOUN_SHAPARAK)));
    reveal_strlit("کبوتر");
    reveal_strlit("kabootar");
    assert(is_word_entry(word_entry(NOUN_KABOOTAR)));
    reveal_strlit("پروانه");
    reveal_strlit("parvane");
    assert(is_word_entry(word_entry(NOUN_PARVANE)));
    reveal_strlit("قورباغه");
    reveal_strlit("ghoorbaghe");
    assert(is_word_entry(word_entry(NOUN_GHOORBAGHE)));
    reveal_strlit("شاهین");
    reveal_strlit("shahin");
    assert(is_word_entry(word_entry(NOUN_SHAHIN)));
    reveal_strlit("سیمرغ");
    reveal_strlit("simorgh");
    assert(is_word_entry(word_entry(NOUN_SIMORGH)));
    reveal_strlit("سنجاب");
    reveal_strlit("sanjab");
    assert(is_word_entry(word_entry(NOUN_SANJAB)));
    reveal_strlit("یوز");
    reveal_strlit("yooz");
    assert(is_word_entry(word_entry(NOUN_YOOZ)));
    reveal_strlit("قرقی");
    reveal_strlit("gherghi");
    assert(is_word_entry(word_entry(NOUN_GHERGHI)));
    reveal_strlit("تمساح");
    reveal_strlit("temsah");
    assert(is_word_entry(word_entry(NOUN_TEMSAH)));
    reveal_strlit("برنامه\u{200c}نویس");
    reveal_strlit("barnamenevis");
    assert(is_word_entry(word_entry(NOUN_BARNAMENEVIS)));
    reveal_strlit("هکر");
    reveal_strlit("hacker");
    assert(is_word_entry(word_entry(NOUN_HACKER)));
    reveal_strlit("دارکوب");
    reveal_strlit("darkoob");
    assert(is_word_entry(word_entry(NOUN_DARKOOB)));
    reveal_strlit("زنبور");
    reveal_strlit("zanboor");
    assert(is_word_entry(word_entry(NOUN_ZANBOOR)));
    reveal_strlit("ساقی");
    reveal_strlit("saaghi");
    assert(is_word_entry(word_entry(NOUN_SAAGHI)));
    reveal_strlit("میمونک");
    reveal_strlit("meymoonak");
    assert(is_word_entry(word_entry(NOUN_MEYMOONAK)));
    reveal_strlit("نهنگ");
    reveal_strlit("nahang");
    assert(is_word_entry(word_entry(NOUN_NAHANG)));
    reveal_strlit("آدمک");
    reveal_strlit("adamak");
    assert(is_word_entry(word_entry(NOUN_ADAMAK)));
    reveal_strlit("مسافر");
    reveal_strlit("mosafer");
    assert(is_word_entry(word_entry(NOUN_MOSAFER)));
    reveal_strlit("نابغه");
    reveal_strlit("nabeghe");
    assert(is_word_entry(word_entry(NOUN_NABEGHE)));
}

/// Every adjective entry is a well-formed word pair.
pub proof fn lemma_adjectives_well_formed()
    ensures
        forall|i: int| 0 <= i < ADJECTIVE_COUNT ==> #[trigger] is_word_entry(adjective_entry(i)),
{
    reveal_strlit("گریان");
    reveal_strlit("geryan");
    assert(is_word_entry(word_entry(ADJ_GERYAN)));
    reveal_strlit("خندان");
    reveal_strlit("khandan");
    assert(is_word_entry(word_entry(ADJ_KHANDAN)));
    reveal_strlit("هشیار");
    reveal_strlit("hoshyar");
    assert(is_word_entry(word_entry(ADJ_HOSHYAR)));
    reveal_strlit("دیوانه");
    reveal_strlit("divane");
    assert(is_word_entry(word_entry(ADJ_DIVANE)));
    reveal_strlit("پرمشغله");
    reveal_strlit("pormashghale");
    assert(is_word_entry(word_entry(ADJ_PORMASHGHALE)));
    reveal_strlit("خوشفکر");
    reveal_strlit("khoshfekr");
    assert(is_word_entry(word_entry(ADJ_KHOSHFEKR)));
    reveal_strlit("مبهوت");
    reveal_strlit("mabhoot");
    assert(is_word_entry(word_entry(ADJ_MABHOOT)));
    reveal_strlit("دوست\u{200c}داشتنی");
    reveal_strlit("doostdashtani");
    assert(is_word_entry(word_entry(ADJ_DOOSTDASHTANI)));
    reveal_strlit("خسته");
    reveal_strlit("khaste");
    assert(is_word_entry(word_entry(ADJ_KHASTE)));
    reveal_strlit("کنجکاو");
    reveal_strlit("konjkav");
    assert(is_word_entry(word_entry(ADJ_KONJKAV)));
    reveal_strlit("نگران");
    reveal_strlit("negaran");
    assert(is_word_entry(word_entry(ADJ_NEGARAN)));
    reveal_strlit("امیدوار");
    reveal_strlit("omidvar");
    assert(is_word_entry(word_entry(ADJ_OMIDVAR)));
    reveal_strlit("مهربان");
    reveal_strlit("mehraban");
    assert(is_word_entry(word_entry(ADJ_MEHRABAN)));
    reveal_strlit("تیزپا");
    reveal_strlit("tizpa");
    assert(is_word_entry(word_entry(ADJ_TIZPA)));
    reveal_strlit("هوشمند");
    reveal_strlit("hooshmand");
    assert(is_word_entry(word_entry(ADJ_HOOSHMAND)));
    reveal_strlit("شاعر");
    reveal_strlit("shaer");
    assert(is_word_entry(word_entry(ADJ_SHAER)));
    reveal_strlit("درون");
    reveal_strlit("daroon");
    assert(is_word_entry(word_entry(ADJ_DAROON)));
    reveal_strlit("بی\u{200c}همتا");
    reveal_strlit("bihamta");
    assert(is_word_entry(word_entry(ADJ_BIHAMTA)));
    reveal_strlit("بی\u{200c}نظیر");
    reveal_strlit("binazir");
    assert(is_word_entry(word_entry(ADJ_BINAZIR)));
    reveal_strlit("خجالتی");
    reveal_strlit("khejalati");
    assert(is_word_entry(word_entry(ADJ_KHEJALATI)));
    reveal_strlit("سیری\u{200c}ناپذیر");
    reveal_strlit("sirinapazir");
    assert(is_word_entry(word_entry(ADJ_SIRINAPAZIR)));
    reveal_strlit("زیبا");
    reveal_strlit("ziba");
    assert(is_word_entry(word_entry(ADJ_ZIBA)));
    reveal_strlit("اندیشمند");
    reveal_strlit("andishmand");
    assert(is_word_entry(word_entry(ADJ_ANDISHMAND)));
    reveal_strlit("صبور");
    reveal_strlit("saboor");
    assert(is_word_entry(word_entry(ADJ_SABOOR)));
    reveal_strlit("سحرآمیز");
    reveal_strlit("sehramiz");
    assert(is_word_entry(word_entry(ADJ_SEHRAMIZ)));
    reveal_strlit("بردبار");
    reveal_strlit("bordbar");
    assert(is_word_entry(word_entry(ADJ_BORDBAR)));
    reveal_strlit("دلسوز");
    reveal_strlit("delsooz");
    assert(is_word_entry(word_entry(ADJ_DELSOOZ)));
    reveal_strlit("زودرنج");
    reveal_strlit("zoodranj");
    assert(is_word_entry(word_entry(ADJ_ZOODRANJ)));
    reveal_strlit("خوش\u{200c}مشرب");
    reveal_strlit("khoshmashrab");
    assert(is_word_entry(word_entry(ADJ_KHOSHMASHRAB)));
    reveal_strlit("گشاده\u{200c}رو");
    reveal_strlit("goshaderoo");
    assert(is_word_entry(word_entry(ADJ_GOSHADEROO)));
    reveal_strlit("شجاع");
    reveal_strlit("shoja");
    assert(is_word_entry(word_entry(ADJ_SHOJA)));
    reveal_strlit("دست و دلباز");
    reveal_strlit("dashtodelbaz");
    assert(is_word_entry(word_entry(ADJ_DASHTODELBAZ)));
    reveal_strlit("پرحرف");
    reveal_strlit("porharf");
    assert(is_word_entry(word_entry(ADJ_PORHARF)));
    reveal_strlit("بانمک");
    reveal_strlit("banamak");
    assert(is_word_entry(word_entry(ADJ_BANAMAK)));
    reveal_strlit("چرب\u{200c}زبان");
    reveal_strlit("charbzaban");
    assert(is_word_entry(word_entry(ADJ_CHARBZABAN)));
    reveal_strlit("خوش\u{200c}شانس");
    reveal_strlit("khoshshans");
    assert(is_word_entry(word_entry(ADJ_KHOSHSHANS)));
    reveal_strlit("خوش\u{200c}اقبال");
    reveal_strlit("khosheghbal");
    assert(is_word_entry(word_entry(ADJ_KHOSHEGHBAL)));
    reveal_strlit("شوخ\u{200c}طبع");
    reveal_strlit("shookhtab");
    assert(is_word_entry(word_entry(ADJ_SHOOKHTAB)));
    reveal_strlit("خوابآلو");
    reveal_strlit("khabaloo");
    assert(is_word_entry(word_entry(ADJ_KHABALOO)));
    reveal_strlit("خردمند");
    reveal_strlit("kheradmand");
    assert(is_word_entry(word_entry(ADJ_KHERADMAND)));
    reveal_strlit("مشکوک");
    reveal_strlit("mashkook");
    assert(is_word_entry(word_entry(ADJ_MASHKOOK)));
    reveal_strlit("بذله\u{200c}گو");
    reveal_strlit("bazlegoo");
    assert(is_word_entry(word_entry(ADJ_BAZLEGOO)));
    reveal_strlit("جذاب");
    reveal_strlit("jazab");
    assert(is_word_entry(word_entry(ADJ_JAZAB)));
    reveal_strlit("حواس\u{200c}پرت");
    reveal_strlit("havaspart");
    assert(is_word_entry(word_entry(ADJ_HAVASPART)));
    reveal_strlit("غمگین");
    reveal_strlit("ghamgin");
    assert(is_word_entry(word_entry(ADJ_GHAMGIN)));
    reveal_strlit("باوفا");
    reveal_strlit("bavafa");
    assert(is_word_entry(word_entry(ADJ_BAVAFA)));
    reveal_strlit("وفادار");
    reveal_strlit("vafadar");
    assert(is_word_entry(word_entry(ADJ_VAFADAR)));
    reveal_strlit("مؤمن");
    reveal_strlit("momen");
    assert(is_word_entry(word_entry(ADJ_MOMEN)));
    reveal_strlit("فناناپذیر");
    reveal_strlit("fananapazir");
    assert(is_word_entry(word_entry(ADJ_FANANAPAZIR)));
    reveal_strlit("قدیمی");
    reveal_strlit("ghadimi");
    assert(is_word_entry(word_entry(ADJ_GHADIMI)));
    reveal_strlit("خوشنام");
    reveal_strlit("khoshnam");
    assert(is_word_entry(word_entry(ADJ_KHOSHNAM)));
    reveal_strlit("جسور");
    reveal_strlit("jasoor");
    assert(is_word_entry(word_entry(ADJ_JASOOR)));
    reveal_strlit("خستگی\u{200c}ناپذیر");
    reveal_strlit("khasteginapazir");
    assert(is_word_entry(word_entry(ADJ_KHASTEGINAPAZIR)));
    reveal_strlit("ریزنقش");
    reveal_strlit("riznaqsh");
    assert(is_word_entry(word_entry(ADJ_RIZNAQSH)));
    reveal_strlit("بلندپرواز");
    reveal_strlit("bolandparvaz");
    assert(is_word_entry(word_entry(ADJ_BOLANDPARVAZ)));
    reveal_strlit("بی\u{200c}پروا");
    reveal_strlit("biparva");
    assert(is_word_entry(word_entry(ADJ_BIPARVA)));
    reveal_strlit("تسلیم\u{200c}ناپذیر");
    reveal_strlit("taslimnapazir");
    assert(is_word_entry(word_entry(ADJ_TASLIMNAPAZIR)));
    reveal_strlit("سمج");
    reveal_strlit("semej");
    assert(is_word_entry(word_entry(ADJ_SEMEJ)));
    reveal_strlit("بازیگوش");
    reveal_strlit("bazigoosh");
    assert(is_word_entry(word_entry(ADJ_BAZIGOOSH)));
}

} // verus!
