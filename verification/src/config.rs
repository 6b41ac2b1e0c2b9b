//! The locally persisted configuration: the `SavedConfig` value, its
//! canonical JSON text, the parser, and the store's load rules.
//!
//! Only `orchestrator_url` and `worker_name` are ever persisted; the
//! credential fields of a `ConfigUpdate` travel to the worker and never
//! reach the text this module writes.

use vstd::prelude::*;
use crate::chars::{str_to_chars, chars_to_string, push_chars};
use crate::jstr::{esc, escape_into, parse_jstring_spec, lemma_parse_esc, lemma_esc_plain, plain_char};
use crate::parse::{
    p_tok, p_string_spec, p_end, ws_len, is_ws, step_tok, step_string, step_end, skip_ws,
    chars_eq,
};

verus! {

/// The two fields persisted locally across runs.
#[derive(Debug, Clone, PartialEq)]
pub struct SavedConfig {
    pub orchestrator_url: String,
    pub worker_name: String,
}

/// The mathematical value of a `SavedConfig`.
pub ghost struct SavedConfigV {
    pub orchestrator_url: Seq<char>,
    pub worker_name: Seq<char>,
}

impl View for SavedConfig {
    type V = SavedConfigV;

    open spec fn view(&self) -> SavedConfigV {
        SavedConfigV {
            orchestrator_url: self.orchestrator_url@,
            worker_name: self.worker_name@,
        }
    }
}

/// The input to the save operation; `api_key` and `tenant_id` are pushed
/// to the worker and never persisted locally.
#[derive(Debug, Clone)]
pub struct ConfigUpdate {
    pub orchestrator_url: String,
    pub api_key: String,
    pub tenant_id: String,
    pub worker_name: String,
}

/// The mathematical value of a `ConfigUpdate`.
pub ghost struct ConfigUpdateV {
    pub orchestrator_url: Seq<char>,
    pub api_key: Seq<char>,
    pub tenant_id: Seq<char>,
    pub worker_name: Seq<char>,
}

impl View for ConfigUpdate {
    type V = ConfigUpdateV;

    open spec fn view(&self) -> ConfigUpdateV {
        ConfigUpdateV {
            orchestrator_url: self.orchestrator_url@,
            api_key: self.api_key@,
            tenant_id: self.tenant_id@,
            worker_name: self.worker_name@,
        }
    }
}

/// The application's directory under the per-user configuration
/// directory.
pub fn app_dir_name() -> (s: &'static str)
    ensures
        s@ == "RpaWorker"@,
{
    "RpaWorker"
}

/// The fixed name of the config file inside the application directory.
pub fn config_file_name() -> (s: &'static str)
    ensures
        s@ == "worker_config.json"@,
{
    "worker_config.json"
}

/// The fixed default configuration, served whenever no file exists.
pub open spec fn default_config_spec() -> SavedConfigV {
    SavedConfigV { orchestrator_url: "http://localhost:8000"@, worker_name: "RPA-Worker-01"@ }
}

/// The fixed default configuration, served whenever no file exists.
pub fn default_config() -> (c: SavedConfig)
    ensures
        c@ == default_config_spec(),
{
    SavedConfig {
        orchestrator_url: String::from_str("http://localhost:8000"),
        worker_name: String::from_str("RPA-Worker-01"),
    }
}

/// The subset of an update that is persisted locally.
pub open spec fn saved_of_update(u: ConfigUpdateV) -> SavedConfigV {
    SavedConfigV { orchestrator_url: u.orchestrator_url, worker_name: u.worker_name }
}

/// Derive the persisted subset of an update.
pub fn saved_from_update(u: &ConfigUpdate) -> (c: SavedConfig)
    ensures
        c@ == saved_of_update(u@),
{
    SavedConfig {
        orchestrator_url: u.orchestrator_url.clone(),
        worker_name: u.worker_name.clone(),
    }
}

/// The canonical pretty JSON text of a configuration.
pub open spec fn saved_config_text(c: SavedConfigV) -> Seq<char> {
    "{\n  \"orchestrator_url\": \""@ + esc(c.orchestrator_url) + seq!['"']
        + ",\n  \"worker_name\": \""@ + esc(c.worker_name) + seq!['"'] + "\n}"@
}

/// Serialize a configuration to its canonical pretty JSON text.
pub fn encode_saved_config(c: &SavedConfig) -> (s: String)
    ensures
        s@ == saved_config_text(c@),
{
    let mut out: Vec<char> = Vec::new();
    let head = str_to_chars("{\n  \"orchestrator_url\": \"");
    let mid = str_to_chars(",\n  \"worker_name\": \"");
    let tail = str_to_chars("\n}");
    push_chars(&mut out, &head);
    let url = str_to_chars(c.orchestrator_url.as_str());
    escape_into(&url, &mut out);
    out.push('"');
    push_chars(&mut out, &mid);
    let name = str_to_chars(c.worker_name.as_str());
    escape_into(&name, &mut out);
    out.push('"');
    push_chars(&mut out, &tail);
    proof {
        assert(out@ =~= saved_config_text(c@));
    }
    chars_to_string(&out)
}

/// The key of the persisted orchestrator address.
pub open spec fn key_url() -> Seq<char> {
    "orchestrator_url"@
}

/// The key of the persisted worker name.
pub open spec fn key_name() -> Seq<char> {
    "worker_name"@
}

/// Parse the JSON text of a configuration: one object holding exactly the
/// two members, in either order, in any rendering of the standard JSON
/// grammar for this shape (insignificant whitespace and the standard
/// string escapes included).
pub open spec fn parse_saved_config_spec(s: Seq<char>) -> Option<SavedConfigV> {
    match p_tok(s, '{') {
        Some(r0) => match p_string_spec(r0.skip(ws_len(r0))) {
            Some(k1) => match p_tok(k1.1, ':') {
                Some(r1) => match p_string_spec(r1.skip(ws_len(r1))) {
                    Some(v1) => match p_tok(v1.1, ',') {
                        Some(r2) => match p_string_spec(r2.skip(ws_len(r2))) {
                            Some(k2) => match p_tok(k2.1, ':') {
                                Some(r3) => match p_string_spec(r3.skip(ws_len(r3))) {
                                    Some(v2) => match p_tok(v2.1, '}') {
                                        Some(r4) => if p_end(r4) {
                                            if k1.0 == key_url() && k2.0 == key_name() {
                                                Some(
                                                    SavedConfigV {
                                                        orchestrator_url: v1.0,
                                                        worker_name: v2.0,
                                                    },
                                                )
                                            } else if k1.0 == key_name() && k2.0 == key_url() {
                                                Some(
                                                    SavedConfigV {
                                                        orchestrator_url: v2.0,
                                                        worker_name: v1.0,
                                                    },
                                                )
                                            } else {
                                                None
                                            }
                                        } else {
                                            None
                                        },
                                        None => None,
                                    },
                                    None => None,
                                },
                                None => None,
                            },
                            None => None,
                        },
                        None => None,
                    },
                    None => None,
                },
                None => None,
            },
            None => None,
        },
        None => None,
    }
}

/// Parse a configuration from text.
pub fn parse_saved_config(s: &str) -> (r: Option<SavedConfig>)
    ensures
        match r {
            Some(c) => parse_saved_config_spec(s@) == Some(c@),
            None => parse_saved_config_spec(s@) is None,
        },
{
    let v = str_to_chars(s);
    proof {
        assert(v@.skip(0) =~= v@);
    }
    let i0 = match step_tok(&v, 0, '{') {
        Some(j) => j,
        None => {
            return None;
        },
    };
    let j0 = skip_ws(&v, i0);
    let (k1, i1) = match step_string(&v, j0) {
        Some(p) => p,
        None => {
            return None;
        },
    };
    let i2 = match step_tok(&v, i1, ':') {
        Some(j) => j,
        None => {
            return None;
        },
    };
    let j2 = skip_ws(&v, i2);
    let (v1, i3) = match step_string(&v, j2) {
        Some(p) => p,
        None => {
            return None;
        },
    };
    let i4 = match step_tok(&v, i3, ',') {
        Some(j) => j,
        None => {
            return None;
        },
    };
    let j4 = skip_ws(&v, i4);
    let (k2, i5) = match step_string(&v, j4) {
        Some(p) => p,
        None => {
            return None;
        },
    };
    let i6 = match step_tok(&v, i5, ':') {
        Some(j) => j,
        None => {
            return None;
        },
    };
    let j6 = skip_ws(&v, i6);
    let (v2, i7) = match step_string(&v, j6) {
        Some(p) => p,
        None => {
            return None;
        },
    };
    let i8 = match step_tok(&v, i7, '}') {
        Some(j) => j,
        None => {
            return None;
        },
    };
    if !step_end(&v, i8) {
        return None;
    }
    let ku = str_to_chars("orchestrator_url");
    let kn = str_to_chars("worker_name");
    if chars_eq(&k1, &ku) && chars_eq(&k2, &kn) {
        let c = SavedConfig {
            orchestrator_url: chars_to_string(&v1),
            worker_name: chars_to_string(&v2),
        };
        proof {
            assert(parse_saved_config_spec(v@) == Some(c@));
        }
        Some(c)
    } else if chars_eq(&k1, &kn) && chars_eq(&k2, &ku) {
        let c = SavedConfig {
            orchestrator_url: chars_to_string(&v2),
            worker_name: chars_to_string(&v1),
        };
        proof {
            assert(parse_saved_config_spec(v@) == Some(c@));
        }
        Some(c)
    } else {
        proof {
            assert(parse_saved_config_spec(v@) is None);
        }
        None
    }
}

/// The two persisted keys hold only characters the escape leaves alone.
proof fn lemma_keys_plain()
    ensures
        forall|i: int| 0 <= i < key_url().len() ==> plain_char(key_url()[i]),
        forall|i: int| 0 <= i < key_name().len() ==> plain_char(key_name()[i]),
{
    reveal_strlit("orchestrator_url");
    reveal_strlit("worker_name");
}

/// Round trip: the parser recovers exactly the value the serializer wrote.
#[verifier::rlimit(100)]
pub proof fn lemma_saved_config_round_trip(c: SavedConfigV)
    ensures
        parse_saved_config_spec(saved_config_text(c)) == Some(c),
{
    let head = "{\n  \"orchestrator_url\": \""@;
    let mid = ",\n  \"worker_name\": \""@;
    let tail = "\n}"@;
    let u = c.orchestrator_url;
    let n = c.worker_name;
    let s = saved_config_text(c);
    reveal_strlit("{\n  \"orchestrator_url\": \"");
    reveal_strlit(",\n  \"worker_name\": \"");
    reveal_strlit("\n}");
    reveal_strlit("orchestrator_url");
    reveal_strlit("worker_name");
    lemma_keys_plain();
    lemma_esc_plain(key_url());
    lemma_esc_plain(key_name());
    // the opening brace, with no whitespace before it
    assert(s[0] == '{' && !is_ws(s[0]));
    assert(ws_len(s) == 0);
    assert(s.skip(0) =~= s);
    assert(p_tok(s, '{') == Some(s.skip(1)));
    // the run of whitespace before the first key
    let r0 = s.skip(1);
    assert(r0[0] == '\n' && r0[1] == ' ' && r0[2] == ' ' && r0[3] == '"');
    lemma_ws3(r0);
    assert(r0.skip(3) =~= s.skip(4));
    // the first key, a plain quoted string
    let rest1 = seq![':', ' ', '"'] + esc(u) + seq!['"'] + mid + esc(n) + seq!['"'] + tail;
    assert(s.skip(4)[0] == '"');
    assert(s.skip(5) =~= esc(key_url()) + seq!['"'] + rest1);
    lemma_parse_esc(key_url(), rest1);
    assert(s.skip(4).skip(1) =~= s.skip(5));
    assert(p_string_spec(s.skip(4)) == Some((key_url(), rest1)));
    // the colon and the single space before the first value
    assert(rest1[0] == ':' && !is_ws(rest1[0]));
    assert(ws_len(rest1) == 0);
    assert(rest1.skip(0) =~= rest1);
    let r1 = rest1.skip(1);
    assert(p_tok(rest1, ':') == Some(r1));
    assert(r1[0] == ' ' && r1[1] == '"');
    lemma_ws1(r1);
    // the first value
    let rest2 = mid + esc(n) + seq!['"'] + tail;
    assert(r1.skip(1)[0] == '"');
    assert(r1.skip(1).skip(1) =~= esc(u) + seq!['"'] + rest2);
    lemma_parse_esc(u, rest2);
    assert(p_string_spec(r1.skip(1)) == Some((u, rest2)));
    // the comma and the run of whitespace before the second key
    assert(rest2[0] == ',' && !is_ws(rest2[0]));
    assert(ws_len(rest2) == 0);
    assert(rest2.skip(0) =~= rest2);
    let r2 = rest2.skip(1);
    assert(p_tok(rest2, ',') == Some(r2));
    assert(r2[0] == '\n' && r2[1] == ' ' && r2[2] == ' ' && r2[3] == '"');
    lemma_ws3(r2);
    // the second key
    let rest3 = seq![':', ' ', '"'] + esc(n) + seq!['"'] + tail;
    assert(r2.skip(3)[0] == '"');
    assert(r2.skip(3).skip(1) =~= esc(key_name()) + seq!['"'] + rest3);
    lemma_parse_esc(key_name(), rest3);
    assert(p_string_spec(r2.skip(3)) == Some((key_name(), rest3)));
    // the colon and the single space before the second value
    assert(rest3[0] == ':' && !is_ws(rest3[0]));
    assert(ws_len(rest3) == 0);
    assert(rest3.skip(0) =~= rest3);
    let r3 = rest3.skip(1);
    assert(p_tok(rest3, ':') == Some(r3));
    assert(r3[0] == ' ' && r3[1] == '"');
    lemma_ws1(r3);
    // the second value
    assert(r3.skip(1)[0] == '"');
    assert(r3.skip(1).skip(1) =~= esc(n) + seq!['"'] + tail);
    lemma_parse_esc(n, tail);
    assert(p_string_spec(r3.skip(1)) == Some((n, tail)));
    // the newline, the closing brace, and the end of the text
    assert(tail[0] == '\n' && tail[1] == '}');
    lemma_ws1(tail);
    assert(tail.skip(1)[0] == '}');
    let r4 = tail.skip(1).skip(1);
    assert(p_tok(tail, '}') == Some(r4));
    assert(r4.len() == 0);
    assert(ws_len(r4) == 0 && p_end(r4));
    assert(key_url() != key_name());
    assert(parse_saved_config_spec(s) == Some(c));
}

/// The whitespace run of a text whose first character is whitespace and
/// whose second is not.
proof fn lemma_ws1(s: Seq<char>)
    requires
        s.len() >= 2,
        is_ws(s[0]),
        !is_ws(s[1]),
    ensures
        ws_len(s) == 1,
{
    assert(s.skip(1)[0] == s[1]);
    assert(ws_len(s.skip(1)) == 0);
}

/// The whitespace run of a text that opens with newline, space, space and
/// then a quote.
proof fn lemma_ws3(s: Seq<char>)
    requires
        s.len() >= 4,
        s[0] == '\n',
        s[1] == ' ',
        s[2] == ' ',
        s[3] == '"',
    ensures
        ws_len(s) == 3,
{
    let s1 = s.skip(1);
    let s2 = s1.skip(1);
    let s3 = s2.skip(1);
    assert(s1[0] == s[1] && s2[0] == s[2] && s3[0] == s[3]);
    assert(s1.skip(1) =~= s.skip(2));
    assert(s2.skip(1) =~= s.skip(3));
    assert(ws_len(s3) == 0);
    assert(ws_len(s2) == 1 + ws_len(s2.skip(1)));
    assert(ws_len(s2.skip(1)) == ws_len(s3));
    assert(ws_len(s1) == 1 + ws_len(s1.skip(1)));
    assert(ws_len(s1.skip(1)) == ws_len(s2));
    assert(ws_len(s) == 1 + ws_len(s1));
}

/// What the surrounding binary found when probing the config file.
#[derive(Debug)]
pub enum LoadProbe {
    /// No config directory could be resolved, or the file does not exist.
    Missing,
    /// The file exists and holds this text.
    Content(String),
    /// The file exists but reading it failed with this detail.
    ReadError(String),
}

/// The result of a load over the probed state of the file, with the
/// error text the dispatch surface reports.
pub open spec fn load_result_spec(p: &LoadProbe) -> Result<SavedConfigV, Seq<char>> {
    match p {
        LoadProbe::Missing => Ok(default_config_spec()),
        LoadProbe::Content(s) => match parse_saved_config_spec(s@) {
            Some(c) => Ok(c),
            None => Err("Erro ao processar configuração"@),
        },
        LoadProbe::ReadError(d) => Err("Erro ao ler arquivo de configuração: "@ + d@),
    }
}

/// Load the configuration from the probed state of the file. A missing
/// file — or no resolvable configuration directory at all — yields the
/// fixed default and never an error; load needs no writable directory.
pub fn load_local_config(p: &LoadProbe) -> (r: Result<SavedConfig, String>)
    ensures
        match r {
            Ok(c) => load_result_spec(p) == Ok::<SavedConfigV, Seq<char>>(c@),
            Err(m) => load_result_spec(p) == Err::<SavedConfigV, Seq<char>>(m@),
        },
        p is Missing ==> (r matches Ok(c) && c@ == default_config_spec()),
{
    match p {
        LoadProbe::Missing => Ok(default_config()),
        LoadProbe::Content(s) => match parse_saved_config(s.as_str()) {
            Some(c) => Ok(c),
            None => Err(String::from_str("Erro ao processar configuração")),
        },
        LoadProbe::ReadError(d) => {
            let mut m = String::from_str("Erro ao ler arquivo de configuração: ");
            m.append(d.as_str());
            Err(m)
        },
    }
}

/// The file's content after a save: the canonical text of the saved
/// value, whatever was there before.
pub open spec fn file_after_save(prior: Option<Seq<char>>, c: SavedConfigV) -> Option<Seq<char>> {
    Some(saved_config_text(c))
}

/// The load outcome over a modeled file content.
pub open spec fn load_of_file(f: Option<Seq<char>>) -> Option<SavedConfigV> {
    match f {
        None => Some(default_config_spec()),
        Some(s) => parse_saved_config_spec(s),
    }
}

/// Saving and then loading yields the saved value, whatever the file
/// held before.
pub proof fn lemma_save_then_load(prior: Option<Seq<char>>, c: SavedConfigV)
    ensures
        load_of_file(file_after_save(prior, c)) == Some(c),
{
    lemma_saved_config_round_trip(c);
}

/// Repeated saves of the same value are idempotent: a second save leaves
/// the file content, and every subsequent load, unchanged.
pub proof fn lemma_save_idempotent(prior: Option<Seq<char>>, c: SavedConfigV)
    ensures
        file_after_save(file_after_save(prior, c), c) == file_after_save(prior, c),
        load_of_file(file_after_save(file_after_save(prior, c), c)) == load_of_file(
            file_after_save(prior, c),
        ),
{
}

} // verus!
