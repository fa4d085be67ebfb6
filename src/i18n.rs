//! Interface languages and translated message tables.

use vstd::prelude::*;
use crate::config::{lookup, pairs_view};
use crate::error::InstallError;
use crate::instance::{join_path, join_path_exec};
use crate::text::{concat, decimal_of, decimal_string, lower_of, lowercase, str_eq};

verus! {

#[derive(Debug, Clone, Copy, PartialEq, Eq, Structural)]
pub enum Language {
    Chinese,
    English,
}

/// The language that a lowercased code names.
pub open spec fn language_of_code(t: Seq<char>) -> Option<Language> {
    if t == "zh"@ || t == "cn"@ || t == "chinese"@ {
        Some(Language::Chinese)
    } else if t == "en"@ || t == "english"@ {
        Some(Language::English)
    } else {
        None
    }
}

pub open spec fn code_of(l: Language) -> Seq<char> {
    match l {
        Language::Chinese => "zh"@,
        Language::English => "en"@,
    }
}

impl Language {
    /// The language that a code names, in any letter case.
    pub fn from_code(code: &str) -> (r: Option<Language>)
        ensures
            r == language_of_code(lower_of(code@)),
    {
        let l = lowercase(code);
        let t = l.as_str();
        if str_eq(t, "zh") || str_eq(t, "cn") || str_eq(t, "chinese") {
            Some(Language::Chinese)
        } else if str_eq(t, "en") || str_eq(t, "english") {
            Some(Language::English)
        } else {
            None
        }
    }

    pub fn as_code(&self) -> (r: &'static str)
        ensures
            r@ == code_of(*self),
    {
        match self {
            Language::Chinese => "zh",
            Language::English => "en",
        }
    }

    /// The language's own name for itself.
    pub fn as_name(&self) -> (r: &'static str)
        ensures
            r@ == match self {
                Language::Chinese => "中文"@,
                Language::English => "English"@,
            },
    {
        match self {
            Language::Chinese => "中文",
            Language::English => "English",
        }
    }
}

/// The map that a list of pairs defines; a later pair for a key wins.
pub open spec fn table_of(pairs: Seq<(Seq<char>, Seq<char>)>) -> Map<Seq<char>, Seq<char>>
    decreases pairs.len(),
{
    if pairs.len() == 0 {
        Map::empty()
    } else {
        table_of(pairs.drop_last()).insert(pairs.last().0, pairs.last().1)
    }
}

/// What `toml::from_str` reads from a text as a table of strings, or `None`
/// when the text is not such a table.
pub uninterp spec fn toml_strings_of(text: Seq<char>) -> Option<Map<Seq<char>, Seq<char>>>;

/// Relies on `toml::from_str::<HashMap<String, String>>`: the key/value
/// pairs of a TOML document whose values are all strings; each key appears
/// once in the result, in no particular order.
#[verifier::external_body]
fn parse_string_table(text: &str) -> (r: Option<Vec<(String, String)>>)
    ensures
        match r {
            Some(v) => toml_strings_of(text@) == Some(table_of(pairs_view(v@))),
            None => toml_strings_of(text@).is_none(),
        },
{
    match toml::from_str::<std::collections::HashMap<String, String>>(text) {
        Ok(m) => Some(m.into_iter().collect()),
        Err(_) => None,
    }
}

/// The built-in messages of each language.
pub open spec fn default_messages(lang: Language) -> Seq<(Seq<char>, Seq<char>)> {
    match lang {
        Language::Chinese => seq![
            ("welcome"@, "欢迎使用 TermuxForLinux"@),
            ("install_success"@, "安装成功"@),
            ("uninstall_success"@, "卸载完成"@),
            ("system_not_found"@, "系统不存在"@),
            ("press_enter"@, "按回车键继续..."@),
            ("invalid_choice"@, "无效的选择"@),
            ("installation_complete"@, "安装完成"@),
            ("downloading"@, "正在下载"@),
            ("extracting"@, "正在解压"@),
            ("configuring"@, "正在配置"@),
        ],
        Language::English => seq![
            ("welcome"@, "Welcome to TermuxForLinux"@),
            ("install_success"@, "Installation successful"@),
            ("uninstall_success"@, "Uninstall complete"@),
            ("system_not_found"@, "System not found"@),
            ("press_enter"@, "Press Enter to continue..."@),
            ("invalid_choice"@, "Invalid choice"@),
            ("installation_complete"@, "Installation complete"@),
            ("downloading"@, "Downloading"@),
            ("extracting"@, "Extracting"@),
            ("configuring"@, "Configuring"@),
        ],
    }
}

/// Where translated message tables are looked for.
pub struct I18nLoader {
    pub locale_dir: String,
}

fn pair(k: &str, v: &str) -> (r: (String, String))
    ensures
        r.0@ == k@,
        r.1@ == v@,
{
    (String::from_str(k), String::from_str(v))
}

impl I18nLoader {
    pub fn new(locale_dir: String) -> (r: I18nLoader)
        ensures
            r.locale_dir@ == locale_dir@,
    {
        I18nLoader { locale_dir }
    }

    /// The table file of `lang`: `<code>.toml` in the locale directory.
    pub fn locale_file(&self, lang: Language) -> (r: String)
        ensures
            r@ == join_path(self.locale_dir@, code_of(lang) + ".toml"@),
    {
        let name = concat(lang.as_code(), ".toml");
        join_path_exec(self.locale_dir.as_str(), name.as_str())
    }

    /// The built-in messages of `lang`.
    pub fn get_default_strings(&self, lang: Language) -> (r: Vec<(String, String)>)
        ensures
            pairs_view(r@) == default_messages(lang),
    {
        let mut s: Vec<(String, String)> = Vec::new();
        match lang {
            Language::Chinese => {
                s.push(pair("welcome", "欢迎使用 TermuxForLinux"));
                s.push(pair("install_success", "安装成功"));
                s.push(pair("uninstall_success", "卸载完成"));
                s.push(pair("system_not_found", "系统不存在"));
                s.push(pair("press_enter", "按回车键继续..."));
                s.push(pair("invalid_choice", "无效的选择"));
                s.push(pair("installation_complete", "安装完成"));
                s.push(pair("downloading", "正在下载"));
                s.push(pair("extracting", "正在解压"));
                s.push(pair("configuring", "正在配置"));
            },
            Language::English => {
                s.push(pair("welcome", "Welcome to TermuxForLinux"));
                s.push(pair("install_success", "Installation successful"));
                s.push(pair("uninstall_success", "Uninstall complete"));
                s.push(pair("system_not_found", "System not found"));
                s.push(pair("press_enter", "Press Enter to continue..."));
                s.push(pair("invalid_choice", "Invalid choice"));
                s.push(pair("installation_complete", "Installation complete"));
                s.push(pair("downloading", "Downloading"));
                s.push(pair("extracting", "Extracting"));
                s.push(pair("configuring", "Configuring"));
            },
        }
        assert(pairs_view(s@) =~= default_messages(lang));
        s
    }

    /// The messages of `lang` given what its table file holds: the built-in
    /// ones when there is no file, an error when it is not a string table.
    pub fn load_language(&self, lang: Language, file_content: Option<&str>) -> (r: Result<Vec<(String, String)>, InstallError>)
        ensures
            match file_content {
                None => r matches Ok(v) && pairs_view(v@) == default_messages(lang),
                Some(t) => match toml_strings_of(t@) {
                    Some(m) => r matches Ok(v) && table_of(pairs_view(v@)) == m,
                    None => r matches Err(InstallError::ConfigIOError(_)),
                },
            },
    {
        match file_content {
            None => Ok(self.get_default_strings(lang)),
            Some(t) => match parse_string_table(t) {
                Some(v) => Ok(v),
                None => {
                    let f = self.locale_file(lang);
                    Err(InstallError::ConfigIOError(concat("invalid message table: ", f.as_str())))
                },
            },
        }
    }
}

/// What `str::replace` returns for `s` with every `from` replaced by `to`.
pub uninterp spec fn replaced_of(s: Seq<char>, from: Seq<char>, to: Seq<char>) -> Seq<char>;

/// Relies on `str::replace`: every non-overlapping occurrence of `from`,
/// scanning left to right, replaced by `to`.
#[verifier::external_body]
fn replace_all(s: &str, from: &str, to: &str) -> (r: String)
    ensures
        r@ == replaced_of(s@, from@, to@),
{
    s.replace(from, to)
}

/// The message for `key`, or `[key]` when the table has none.
pub open spec fn message_of(strings: Seq<(Seq<char>, Seq<char>)>, key: Seq<char>) -> Seq<char> {
    match lookup(strings, key) {
        Some(v) => v,
        None => "["@ + key + "]"@,
    }
}

/// `template` with `{i}` replaced by `args[i]`, for `i` from 0 up to `n`.
pub open spec fn filled_in(template: Seq<char>, args: Seq<Seq<char>>, n: nat) -> Seq<char>
    decreases n,
{
    if n == 0 {
        template
    } else {
        replaced_of(
            filled_in(template, args, (n - 1) as nat),
            "{"@ + decimal_of((n - 1) as nat) + "}"@,
            args[n - 1],
        )
    }
}

/// Looks up translated messages.
pub struct Translator {
    pub lang: Language,
    pub strings: Vec<(String, String)>,
}

impl Translator {
    pub fn new(lang: Language, strings: Vec<(String, String)>) -> (r: Translator)
        ensures
            r.lang == lang,
            pairs_view(r.strings@) == pairs_view(strings@),
    {
        Translator { lang, strings }
    }

    /// The message for `key`, or `[key]` when there is none.
    pub fn t(&self, key: &str) -> (r: String)
        ensures
            r@ == message_of(pairs_view(self.strings@), key@),
    {
        let mut i: usize = self.strings.len();
        assert(self.strings@.subrange(0, i as int) =~= self.strings@);
        while i > 0
            invariant
                i <= self.strings@.len(),
                lookup(pairs_view(self.strings@), key@) == lookup(pairs_view(self.strings@.subrange(0, i as int)), key@),
            decreases i,
        {
            let ghost pre = pairs_view(self.strings@.subrange(0, i as int));
            assert(pre.drop_last() =~= pairs_view(self.strings@.subrange(0, i - 1)));
            if str_eq(self.strings[i - 1].0.as_str(), key) {
                return self.strings[i - 1].1.clone();
            }
            i = i - 1;
        }
        let a = concat("[", key);
        concat(a.as_str(), "]")
    }

    /// The message for `key` with `{0}`, `{1}`, ... replaced by `args` in turn.
    pub fn t_fmt(&self, key: &str, args: &[&str]) -> (r: String)
        ensures
            r@ == filled_in(
                message_of(pairs_view(self.strings@), key@),
                args@.map_values(|a: &str| a@),
                args@.len(),
            ),
    {
        let mut result = self.t(key);
        let ghost template = result@;
        let ghost av = args@.map_values(|a: &str| a@);
        let mut i: usize = 0;
        while i < args.len()
            invariant
                i <= args@.len(),
                av == args@.map_values(|a: &str| a@),
                result@ == filled_in(template, av, i as nat),
            decreases args@.len() - i,
        {
            let d = decimal_string(i as u64);
            let a = concat("{", d.as_str());
            let placeholder = concat(a.as_str(), "}");
            result = replace_all(result.as_str(), placeholder.as_str(), args[i]);
            i = i + 1;
        }
        result
    }

    pub fn get_language(&self) -> (r: Language)
        ensures
            r == self.lang,
    {
        self.lang
    }

    pub fn get_language_name(&self) -> (r: &'static str)
        ensures
            r@ == match self.lang {
                Language::Chinese => "中文"@,
                Language::English => "English"@,
            },
    {
        self.lang.as_name()
    }
}

} // verus!
