use vstd::prelude::*;
use vstd::utf8::{decode_utf8, valid_utf8};
use crate::json::{
    dotted, flatten_into, flatten_json, index_path_of, json_at, json_document, later_leaves_at_key_are,
    lemma_flatten_finds_nested, parse_json,
    utf8_text, JsonValue,
};
use crate::keyed::KeyedList;

verus! {

/// Translation of messages by key and language.
pub trait I18nService: Send + Sync {
    /// The message for a key in a language.
    fn get(&self, key: &str, lang: &str) -> String;

    /// The languages that have messages.
    fn supported_languages(&self) -> Vec<String>;
}

/// The message stored for a key in a language, if any.
pub open spec fn stored_message(
    data: Map<Seq<char>, Map<Seq<char>, Seq<char>>>,
    lang: Seq<char>,
    key: Seq<char>,
) -> Option<Seq<char>> {
    if data.contains_key(lang) && data[lang].contains_key(key) {
        Some(data[lang][key])
    } else {
        None
    }
}

/// The translation of `key` into `lang`: the requested language's message;
/// else the default locale's (when the request was for another language);
/// else the fallback locale's (when the request was for another language and
/// the fallback differs from the default); else the key itself.
pub open spec fn translate(
    data: Map<Seq<char>, Map<Seq<char>, Seq<char>>>,
    default_locale: Seq<char>,
    fallback_locale: Seq<char>,
    key: Seq<char>,
    lang: Seq<char>,
) -> Seq<char> {
    if stored_message(data, lang, key) is Some {
        stored_message(data, lang, key)->0
    } else if lang != default_locale && stored_message(data, default_locale, key) is Some {
        stored_message(data, default_locale, key)->0
    } else if lang != fallback_locale && default_locale != fallback_locale && stored_message(
        data,
        fallback_locale,
        key,
    ) is Some {
        stored_message(data, fallback_locale, key)->0
    } else {
        key
    }
}

/// Locale documents as language codes and JSON values.
pub open spec fn documents_model(docs: Seq<(String, JsonValue)>) -> Seq<(Seq<char>, JsonValue)> {
    docs.map_values(|d: (String, JsonValue)| (d.0@, d.1))
}

/// The message tables built from the first `n` locale documents: each
/// document flattened on its own, a later document of the same locale
/// replacing an earlier one.
pub open spec fn tables_of(docs: Seq<(Seq<char>, JsonValue)>, n: int) -> Map<Seq<char>, Map<Seq<char>, Seq<char>>>
    decreases n,
{
    if n <= 0 || n > docs.len() {
        Map::empty()
    } else {
        tables_of(docs, n - 1).insert(docs[n - 1].0, flatten_into(Seq::empty(), docs[n - 1].1, Map::empty()))
    }
}

/// The documents read from the first `n` locale files given as texts: each
/// text that is one JSON value, with its language, in order; the others are
/// left out.
pub open spec fn parsed_documents(files: Seq<(Seq<char>, Seq<char>)>, n: int) -> Seq<(Seq<char>, JsonValue)>
    decreases n,
{
    if n <= 0 || n > files.len() {
        seq![]
    } else {
        let prev = parsed_documents(files, n - 1);
        match json_document(files[n - 1].1) {
            Some(v) => prev.push((files[n - 1].0, v)),
            None => prev,
        }
    }
}

/// The texts of the first `n` locale files given as bytes: each file whose
/// bytes are valid UTF-8, decoded, with its language, in order; the others
/// are left out.
pub open spec fn decoded_files(files: Seq<(Seq<char>, Seq<u8>)>, n: int) -> Seq<(Seq<char>, Seq<char>)>
    decreases n,
{
    if n <= 0 || n > files.len() {
        seq![]
    } else {
        let prev = decoded_files(files, n - 1);
        if valid_utf8(files[n - 1].1) {
            prev.push((files[n - 1].0, decode_utf8(files[n - 1].1)))
        } else {
            prev
        }
    }
}

pub open spec fn texts_model(files: Seq<(String, String)>) -> Seq<(Seq<char>, Seq<char>)> {
    files.map_values(|f: (String, String)| (f.0@, f.1@))
}

pub open spec fn bytes_model(files: Seq<(String, Vec<u8>)>) -> Seq<(Seq<char>, Seq<u8>)> {
    files.map_values(|f: (String, Vec<u8>)| (f.0@, f.1@))
}

/// The message tables of the locale files given as texts.
pub open spec fn tables_of_texts(files: Seq<(Seq<char>, Seq<char>)>) -> Map<Seq<char>, Map<Seq<char>, Seq<char>>> {
    let ds = parsed_documents(files, files.len() as int);
    tables_of(ds, ds.len() as int)
}

/// Message tables per language, with a default and a fallback locale.
pub struct TranslationService {
    data: KeyedList<KeyedList<String>>,
    default_locale: String,
    fallback_locale: String,
}

impl TranslationService {
    #[verifier::type_invariant]
    spec fn inv(&self) -> bool {
        self.data.wf()
    }

    /// language -> (key -> message)
    pub closed spec fn messages(&self) -> Map<Seq<char>, Map<Seq<char>, Seq<char>>> {
        self.data@
    }

    pub closed spec fn default_locale(&self) -> Seq<char> {
        self.default_locale@
    }

    pub closed spec fn fallback_locale(&self) -> Seq<char> {
        self.fallback_locale@
    }

    /// The configured default locale.
    pub fn default_locale_code(&self) -> (r: &String)
        ensures
            r@ == self.default_locale(),
    {
        &self.default_locale
    }

    /// Builds the service from the locale documents that could be loaded,
    /// each given with its language code.
    pub fn new(default_locale: String, fallback_locale: String, documents: Vec<(String, JsonValue)>) -> (r: Self)
        ensures
            r.messages() == tables_of(documents_model(documents@), documents@.len() as int),
            r.default_locale() == default_locale@,
            r.fallback_locale() == fallback_locale@,
    {
        let mut data: KeyedList<KeyedList<String>> = KeyedList::new();
        let mut i: usize = 0;
        while i < documents.len()
            invariant
                i <= documents.len(),
                data.wf(),
                data@ == tables_of(documents_model(documents@), i as int),
            decreases documents.len() - i,
        {
            let mut flat: KeyedList<String> = KeyedList::new();
            flatten_json("", &documents[i].1, &mut flat);
            proof {
                assert(""@ =~= Seq::<char>::empty()) by {
                    reveal_strlit("");
                }
            }
            data.insert(documents[i].0.clone(), flat);
            i = i + 1;
        }
        TranslationService { data, default_locale, fallback_locale }
    }

    /// Builds the service from locale files given as texts, each with its
    /// language code: the texts that parse as JSON become the message tables,
    /// in order; the others are skipped.
    pub fn from_texts(default_locale: String, fallback_locale: String, files: Vec<(String, String)>) -> (r: Self)
        ensures
            r.messages() == tables_of_texts(texts_model(files@)),
            r.default_locale() == default_locale@,
            r.fallback_locale() == fallback_locale@,
    {
        let ghost fm = texts_model(files@);
        let mut documents: Vec<(String, JsonValue)> = Vec::new();
        let mut i: usize = 0;
        while i < files.len()
            invariant
                i <= files.len(),
                fm == texts_model(files@),
                documents_model(documents@) == parsed_documents(fm, i as int),
            decreases files.len() - i,
        {
            let ghost before = documents@;
            match parse_json(files[i].1.as_str()) {
                Some(v) => {
                    documents.push((files[i].0.clone(), v));
                    proof {
                        assert(documents_model(documents@) =~= documents_model(before).push(
                            (fm[i as int].0, documents@.last().1),
                        ));
                    }
                },
                None => {},
            }
            i = i + 1;
        }
        TranslationService::new(default_locale, fallback_locale, documents)
    }

    /// Builds the service from locale files given as bytes, each with its
    /// language code: the files that are valid UTF-8 and parse as JSON become
    /// the message tables, in order; the others are skipped.
    pub fn from_files(default_locale: String, fallback_locale: String, files: Vec<(String, Vec<u8>)>) -> (r: Self)
        ensures
            r.messages() == tables_of_texts(decoded_files(bytes_model(files@), files@.len() as int)),
            r.default_locale() == default_locale@,
            r.fallback_locale() == fallback_locale@,
    {
        let ghost fm = bytes_model(files@);
        let mut texts: Vec<(String, String)> = Vec::new();
        let mut i: usize = 0;
        while i < files.len()
            invariant
                i <= files.len(),
                fm == bytes_model(files@),
                texts_model(texts@) == decoded_files(fm, i as int),
            decreases files.len() - i,
        {
            let ghost before = texts@;
            match utf8_text(files[i].1.as_slice()) {
                Some(t) => {
                    texts.push((files[i].0.clone(), String::from_str(t)));
                    proof {
                        assert(texts_model(texts@) =~= texts_model(before).push((fm[i as int].0, decode_utf8(fm[i as int].1))));
                    }
                },
                None => {},
            }
            i = i + 1;
        }
        TranslationService::from_texts(default_locale, fallback_locale, texts)
    }

    /// Gets a translated message by key and language (see `translate`). Keys
    /// can be nested like "errors.not_found" or "auth.login_success".
    pub fn get(&self, key: &str, lang: &str) -> (r: String)
        ensures
            r@ == translate(self.messages(), self.default_locale(), self.fallback_locale(), key@, lang@),
    {
        if let Some(messages) = self.data.get(lang) {
            if let Some(msg) = messages.get(key) {
                return msg.clone();
            }
        }
        let lang_text = String::from_str(lang);
        if !(lang_text == self.default_locale) {
            if let Some(messages) = self.data.get(self.default_locale.as_str()) {
                if let Some(msg) = messages.get(key) {
                    return msg.clone();
                }
            }
        }
        if !(lang_text == self.fallback_locale) && !(self.default_locale == self.fallback_locale) {
            if let Some(messages) = self.data.get(self.fallback_locale.as_str()) {
                if let Some(msg) = messages.get(key) {
                    return msg.clone();
                }
            }
        }
        String::from_str(key)
    }

    /// The languages that have a message table, each once.
    pub fn supported_languages(&self) -> (r: Vec<String>)
        ensures
            r@.map_values(|s: String| s@).no_duplicates(),
            r@.map_values(|s: String| s@).to_set() == self.messages().dom(),
    {
        proof {
            use_type_invariant(self);
        }
        self.data.keys()
    }
}

impl I18nService for TranslationService {
    fn get(&self, key: &str, lang: &str) -> (r: String)
        ensures
            r@ == translate(self.messages(), self.default_locale(), self.fallback_locale(), key@, lang@),
    {
        TranslationService::get(self, key, lang)
    }

    fn supported_languages(&self) -> (r: Vec<String>)
        ensures
            r@.map_values(|s: String| s@).no_duplicates(),
            r@.map_values(|s: String| s@).to_set() == self.messages().dom(),
    {
        TranslationService::supported_languages(self)
    }
}

/// The language codes whose message files ship with the service.
pub fn bundled_locales() -> (r: Vec<String>)
    ensures
        r@.map_values(|s: String| s@) == seq!["en"@, "hi"@, "es"@, "fr"@],
{
    let r = vec![
        String::from_str("en"),
        String::from_str("hi"),
        String::from_str("es"),
        String::from_str("fr"),
    ];
    assert(r@.map_values(|s: String| s@) =~= seq!["en"@, "hi"@, "es"@, "fr"@]);
    r
}

/// A message that the requested language has is the one given.
pub proof fn lemma_requested_language_first(
    data: Map<Seq<char>, Map<Seq<char>, Seq<char>>>,
    default_locale: Seq<char>,
    fallback_locale: Seq<char>,
    key: Seq<char>,
    lang: Seq<char>,
)
    requires
        data.contains_key(lang),
        data[lang].contains_key(key),
    ensures
        translate(data, default_locale, fallback_locale, key, lang) == data[lang][key],
{
}

/// A key that no table holds translates to itself.
pub proof fn lemma_unknown_key_is_echoed(
    data: Map<Seq<char>, Map<Seq<char>, Seq<char>>>,
    default_locale: Seq<char>,
    fallback_locale: Seq<char>,
    key: Seq<char>,
    lang: Seq<char>,
)
    requires
        forall|l: Seq<char>| #[trigger] data.contains_key(l) ==> !data[l].contains_key(key),
    ensures
        translate(data, default_locale, fallback_locale, key, lang) == key,
{
}

/// Whatever the key and language, the translation is either a stored message
/// of the requested, default or fallback locale, or the key itself.
pub proof fn lemma_translation_source(
    data: Map<Seq<char>, Map<Seq<char>, Seq<char>>>,
    default_locale: Seq<char>,
    fallback_locale: Seq<char>,
    key: Seq<char>,
    lang: Seq<char>,
)
    ensures
        ({
            let t = translate(data, default_locale, fallback_locale, key, lang);
            ||| t == key
            ||| stored_message(data, lang, key) == Some(t)
            ||| stored_message(data, default_locale, key) == Some(t)
            ||| stored_message(data, fallback_locale, key) == Some(t)
        }),
{
}

/// The table of a language is the flattening of its last document.
proof fn lemma_table_of_last_document(docs: Seq<(Seq<char>, JsonValue)>, n: int, j: int)
    requires
        0 <= j < n <= docs.len(),
        forall|k: int| j < k < n ==> #[trigger] docs[k].0 != docs[j].0,
    ensures
        tables_of(docs, n).contains_key(docs[j].0),
        tables_of(docs, n)[docs[j].0] == flatten_into(Seq::empty(), docs[j].1, Map::empty()),
    decreases n,
{
    if n > j + 1 {
        lemma_table_of_last_document(docs, n - 1, j);
        assert(docs[n - 1].0 != docs[j].0);
    }
}

/// A message nested in a language's locale document is what that language
/// gives for the keys of its path joined by dots (such as
/// "errors.not_found"), when the document is the last one of that language
/// and no later string of the document is flattened to the same key with
/// another text.
pub proof fn lemma_nested_key_translates(
    docs: Seq<(Seq<char>, JsonValue)>,
    j: int,
    default_locale: Seq<char>,
    fallback_locale: Seq<char>,
    path: Seq<Seq<char>>,
    m: Seq<char>,
)
    requires
        0 <= j < docs.len(),
        forall|k: int| j < k < docs.len() ==> #[trigger] docs[k].0 != docs[j].0,
        json_at(docs[j].1, path) matches Some(JsonValue::String(s)) && s@ == m,
        later_leaves_at_key_are(
            Seq::empty(),
            docs[j].1,
            index_path_of(docs[j].1, path),
            dotted(Seq::empty(), path),
            m,
        ),
    ensures
        translate(
            tables_of(docs, docs.len() as int),
            default_locale,
            fallback_locale,
            dotted(Seq::empty(), path),
            docs[j].0,
        ) == m,
{
    lemma_table_of_last_document(docs, docs.len() as int, j);
    lemma_flatten_finds_nested(Seq::empty(), docs[j].1, path, Map::empty(), m);
}

} // verus!
