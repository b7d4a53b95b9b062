//! The settings of the relay, the names of its presets, and the hotkey
//! that starts and stops it.
//!
//! Amplitudes are whole numbers, in millionths of full scale; the silence
//! duration is in milliseconds. Reading and writing the settings is left to
//! whoever drives the relay.

use crate::session::{AgentSettings, AgentSettingsView};
use crate::text::{is_prefix, join2, owned, trim, trimmed};
use crate::vad::ThresholdPair;
use vstd::prelude::*;

verus! {

/// The settings of the relay.
#[derive(Debug, PartialEq, Eq)]
pub struct Config {
    // API keys
    pub openai_api_key: String,
    // Audio settings
    /// In millionths of full scale.
    pub start_threshold: u32,
    /// In millionths of full scale.
    pub silence_threshold: u32,
    /// In milliseconds.
    pub silence_duration_ms: u64,
    // Speech-to-text settings
    pub whisper_model: String,
    pub custom_prompt: String,
    // Agent settings
    pub grok_http_server_url: String,
    pub grok_model: String,
    pub max_length_of_conversation_history: usize,
    pub system_prompt: String,
    // UI settings
    pub input_device_name: Option<String>,
    pub hotkey: String,
    pub use_vrchat_mute_detection: bool,
}

impl Clone for Config {
    fn clone(&self) -> (copy: Self)
        ensures
            copy == *self,
    {
        Config {
            openai_api_key: self.openai_api_key.clone(),
            start_threshold: self.start_threshold,
            silence_threshold: self.silence_threshold,
            silence_duration_ms: self.silence_duration_ms,
            whisper_model: self.whisper_model.clone(),
            custom_prompt: self.custom_prompt.clone(),
            grok_http_server_url: self.grok_http_server_url.clone(),
            grok_model: self.grok_model.clone(),
            max_length_of_conversation_history: self.max_length_of_conversation_history,
            system_prompt: self.system_prompt.clone(),
            input_device_name: match &self.input_device_name {
                Some(name) => Some(name.clone()),
                None => None,
            },
            hotkey: self.hotkey.clone(),
            use_vrchat_mute_detection: self.use_vrchat_mute_detection,
        }
    }
}

/// The hotkey of a configuration that names none.
pub fn default_hotkey() -> (hotkey: String)
    ensures
        hotkey@ == "Ctrl+Shift+G"@,
{
    owned("Ctrl+Shift+G")
}

/// The system prompt of a configuration that names none.
pub open spec fn default_system_prompt() -> Seq<char> {
    "以下は、あなたとユーザーの会話履歴です。ユーザーの発言は元は音声であり、内部的にテキスト化されたものです。ユーザーの発言は、音声認識の誤りや、文法的な不完全さを含む可能性があります。あなたは、ユーザーの発言はあたかも音声であるかのように理解し、ユーザーの意図を汲み取る必要があります。 -- 返答は20文字程度の短文である必要があります -- 言語：日本語 -- 名前：リサ -- 人格モデル：月ノ美兎 -- 職業：高校の学級委員長 -- 口調：一人称は必ず「わたくし」、基本は丁寧なですます調で話す（「ですわ」じゃなくて普通の丁寧語ね！）テンション上がると早口＆オタク丸出しの下ネタや毒舌がポロッと出る"@
}

/// The name under which the system's own choice of microphone is listed.
pub open spec fn system_default_device() -> Seq<char> {
    "Windows既定"@
}

impl Default for Config {
    fn default() -> (config: Self)
        ensures
            config.openai_api_key@.len() == 0,
            config.start_threshold == 20_000,
            config.silence_threshold == 10_000,
            config.silence_duration_ms == 2_000,
            config.whisper_model@ == "gpt-4o-transcribe"@,
            config.custom_prompt@ == "A Japanese is speaking. Transcribe it."@,
            config.grok_http_server_url@ == "http://localhost:9096"@,
            config.grok_model@ == "grok-4-1-fast"@,
            config.max_length_of_conversation_history == 20,
            config.system_prompt@ == default_system_prompt(),
            config.input_device_name is None,
            config.hotkey@ == "Ctrl+Shift+G"@,
            !config.use_vrchat_mute_detection,
    {
        Config {
            openai_api_key: String::new(),
            start_threshold: 20_000,
            silence_threshold: 10_000,
            silence_duration_ms: 2_000,
            whisper_model: owned("gpt-4o-transcribe"),
            custom_prompt: owned("A Japanese is speaking. Transcribe it."),
            grok_http_server_url: owned("http://localhost:9096"),
            grok_model: owned("grok-4-1-fast"),
            max_length_of_conversation_history: 20,
            system_prompt: owned(
                "以下は、あなたとユーザーの会話履歴です。ユーザーの発言は元は音声であり、内部的にテキスト化されたものです。ユーザーの発言は、音声認識の誤りや、文法的な不完全さを含む可能性があります。あなたは、ユーザーの発言はあたかも音声であるかのように理解し、ユーザーの意図を汲み取る必要があります。 -- 返答は20文字程度の短文である必要があります -- 言語：日本語 -- 名前：リサ -- 人格モデル：月ノ美兎 -- 職業：高校の学級委員長 -- 口調：一人称は必ず「わたくし」、基本は丁寧なですます調で話す（「ですわ」じゃなくて普通の丁寧語ね！）テンション上がると早口＆オタク丸出しの下ネタや毒舌がポロッと出る",
            ),
            input_device_name: None,
            hotkey: default_hotkey(),
            use_vrchat_mute_detection: false,
        }
    }
}

/// The modifier keys of a hotkey.
#[derive(Clone, Copy, Debug, PartialEq, Eq, Structural)]
pub struct Modifiers {
    pub control: bool,
    pub shift: bool,
    pub alt: bool,
    pub super_key: bool,
}

/// One modifier key.
#[derive(Clone, Copy, Debug, PartialEq, Eq, Structural)]
pub enum Modifier {
    Control,
    Shift,
    Alt,
    Super,
}

impl Modifiers {
    /// No modifier key.
    pub open spec fn none() -> Modifiers {
        Modifiers { control: false, shift: false, alt: false, super_key: false }
    }

    /// These modifier keys and `m`.
    pub open spec fn with(self, m: Modifier) -> Modifiers {
        match m {
            Modifier::Control => Modifiers { control: true, ..self },
            Modifier::Shift => Modifiers { shift: true, ..self },
            Modifier::Alt => Modifiers { alt: true, ..self },
            Modifier::Super => Modifiers { super_key: true, ..self },
        }
    }

    /// No modifier key.
    pub fn empty() -> (m: Self)
        ensures
            m == Modifiers::none(),
    {
        Modifiers { control: false, shift: false, alt: false, super_key: false }
    }

    /// These modifier keys and `m`.
    pub fn insert(&mut self, m: Modifier)
        ensures
            *final(self) == old(self).with(m),
    {
        match m {
            Modifier::Control => {
                self.control = true;
            },
            Modifier::Shift => {
                self.shift = true;
            },
            Modifier::Alt => {
                self.alt = true;
            },
            Modifier::Super => {
                self.super_key = true;
            },
        }
    }
}

/// The key of a hotkey.
#[derive(Clone, Copy, Debug, PartialEq, Eq, Structural)]
pub enum Code {
    KeyA,
    KeyB,
    KeyC,
    KeyD,
    KeyE,
    KeyF,
    KeyG,
    KeyH,
    KeyI,
    KeyJ,
    KeyK,
    KeyL,
    KeyM,
    KeyN,
    KeyO,
    KeyP,
    KeyQ,
    KeyR,
    KeyS,
    KeyT,
    KeyU,
    KeyV,
    KeyW,
    KeyX,
    KeyY,
    KeyZ,
    Digit0,
    Digit1,
    Digit2,
    Digit3,
    Digit4,
    Digit5,
    Digit6,
    Digit7,
    Digit8,
    Digit9,
    F1,
    F2,
    F3,
    F4,
    F5,
    F6,
    F7,
    F8,
    F9,
    F10,
    F11,
    F12,
}

/// A hotkey: modifier keys and one key.
#[derive(Clone, Copy, Debug, PartialEq, Eq, Structural)]
pub struct HotKey {
    pub modifiers: Modifiers,
    pub key: Code,
}

/// The name for what `str::to_lowercase` returns.
pub uninterp spec fn lowercased(s: Seq<char>) -> Seq<char>;

/// The name for what `str::to_uppercase` returns.
pub uninterp spec fn uppercased(s: Seq<char>) -> Seq<char>;

/// `str::to_lowercase`: the lowercase equivalent of the string.
/// Trusted, not proved; the case mapping is left to the standard library.
#[verifier::external_body]
fn to_lowercase(s: &str) -> (r: String)
    ensures
        r@ == lowercased(s@),
{
    s.to_lowercase()
}

/// `str::to_uppercase`: the uppercase equivalent of the string.
/// Trusted, not proved; the case mapping is left to the standard library.
#[verifier::external_body]
fn to_uppercase(s: &str) -> (r: String)
    ensures
        r@ == uppercased(s@),
{
    s.to_uppercase()
}

/// The pieces of `s` between the occurrences of `sep`, in order. There is
/// always at least one piece; pieces may be empty.
pub open spec fn split_on(s: Seq<char>, sep: char) -> Seq<Seq<char>>
    decreases s.len(),
{
    if s.len() == 0 {
        seq![Seq::<char>::empty()]
    } else {
        let front = split_on(s.drop_last(), sep);
        if s.last() == sep {
            front.push(Seq::<char>::empty())
        } else {
            front.drop_last().push(front.last().push(s.last()))
        }
    }
}

/// The views of a run of strings, in order.
pub open spec fn string_views(strings: Seq<String>) -> Seq<Seq<char>> {
    Seq::new(strings.len(), |i: int| strings[i]@)
}

/// `str::split` with a character as the pattern, each piece as a string
/// of its own: the substrings separated by the character, in order, empty
/// ones among them where separators touch or stand at an end. Trusted, not
/// proved.
#[verifier::external_body]
fn split(s: &str, sep: char) -> (pieces: Vec<String>)
    ensures
        string_views(pieces@) == split_on(s@, sep),
{
    s.split(sep).map(|piece| piece.to_string()).collect()
}

/// `str::strip_prefix` with a string as the pattern: the rest of the
/// string behind the prefix, if the string starts with it. Trusted, not
/// proved.
#[verifier::external_body]
fn strip_prefix<'a>(s: &'a str, prefix: &str) -> (rest: Option<&'a str>)
    ensures
        rest is Some <==> is_prefix(s@, prefix@),
        rest matches Some(r) ==> r@ == s@.subrange(prefix@.len() as int, s@.len() as int),
{
    s.strip_prefix(prefix)
}

/// Whether two strings hold the same text.
fn same(a: &str, b: &str) -> (r: bool)
    ensures
        r == (a@ == b@),
{
    owned(a) == owned(b)
}

/// The modifier key that a name stands for, the name in lower case.
pub open spec fn modifier_named(name: Seq<char>) -> Option<Modifier> {
    if name == "ctrl"@ || name == "control"@ {
        Some(Modifier::Control)
    } else if name == "shift"@ {
        Some(Modifier::Shift)
    } else if name == "alt"@ {
        Some(Modifier::Alt)
    } else if name == "super"@ || name == "win"@ || name == "cmd"@ {
        Some(Modifier::Super)
    } else {
        None
    }
}

/// The key that a name stands for, the name in upper case.
pub open spec fn key_named(name: Seq<char>) -> Option<Code> {
    if name == "A"@ {
        Some(Code::KeyA)
    } else if name == "B"@ {
        Some(Code::KeyB)
    } else if name == "C"@ {
        Some(Code::KeyC)
    } else if name == "D"@ {
        Some(Code::KeyD)
    } else if name == "E"@ {
        Some(Code::KeyE)
    } else if name == "F"@ {
        Some(Code::KeyF)
    } else if name == "G"@ {
        Some(Code::KeyG)
    } else if name == "H"@ {
        Some(Code::KeyH)
    } else if name == "I"@ {
        Some(Code::KeyI)
    } else if name == "J"@ {
        Some(Code::KeyJ)
    } else if name == "K"@ {
        Some(Code::KeyK)
    } else if name == "L"@ {
        Some(Code::KeyL)
    } else if name == "M"@ {
        Some(Code::KeyM)
    } else if name == "N"@ {
        Some(Code::KeyN)
    } else if name == "O"@ {
        Some(Code::KeyO)
    } else if name == "P"@ {
        Some(Code::KeyP)
    } else if name == "Q"@ {
        Some(Code::KeyQ)
    } else if name == "R"@ {
        Some(Code::KeyR)
    } else if name == "S"@ {
        Some(Code::KeyS)
    } else if name == "T"@ {
        Some(Code::KeyT)
    } else if name == "U"@ {
        Some(Code::KeyU)
    } else if name == "V"@ {
        Some(Code::KeyV)
    } else if name == "W"@ {
        Some(Code::KeyW)
    } else if name == "X"@ {
        Some(Code::KeyX)
    } else if name == "Y"@ {
        Some(Code::KeyY)
    } else if name == "Z"@ {
        Some(Code::KeyZ)
    } else if name == "0"@ {
        Some(Code::Digit0)
    } else if name == "1"@ {
        Some(Code::Digit1)
    } else if name == "2"@ {
        Some(Code::Digit2)
    } else if name == "3"@ {
        Some(Code::Digit3)
    } else if name == "4"@ {
        Some(Code::Digit4)
    } else if name == "5"@ {
        Some(Code::Digit5)
    } else if name == "6"@ {
        Some(Code::Digit6)
    } else if name == "7"@ {
        Some(Code::Digit7)
    } else if name == "8"@ {
        Some(Code::Digit8)
    } else if name == "9"@ {
        Some(Code::Digit9)
    } else if name == "F1"@ {
        Some(Code::F1)
    } else if name == "F2"@ {
        Some(Code::F2)
    } else if name == "F3"@ {
        Some(Code::F3)
    } else if name == "F4"@ {
        Some(Code::F4)
    } else if name == "F5"@ {
        Some(Code::F5)
    } else if name == "F6"@ {
        Some(Code::F6)
    } else if name == "F7"@ {
        Some(Code::F7)
    } else if name == "F8"@ {
        Some(Code::F8)
    } else if name == "F9"@ {
        Some(Code::F9)
    } else if name == "F10"@ {
        Some(Code::F10)
    } else if name == "F11"@ {
        Some(Code::F11)
    } else if name == "F12"@ {
        Some(Code::F12)
    } else {
        None
    }
}

/// The modifier keys that the parts name, each part trimmed; or the first
/// part, trimmed, that names none.
pub open spec fn modifiers_named(parts: Seq<Seq<char>>) -> Result<Modifiers, Seq<char>>
    decreases parts.len(),
{
    if parts.len() == 0 {
        Ok(Modifiers::none())
    } else {
        match modifiers_named(parts.drop_last()) {
            Err(part) => Err(part),
            Ok(modifiers) => match modifier_named(lowercased(trimmed(parts.last()))) {
                Some(m) => Ok(modifiers.with(m)),
                None => Err(trimmed(parts.last())),
            },
        }
    }
}

/// The hotkey that a text names: modifier keys and one key, joined by `+`,
/// with white space around the parts and the case of the letters ignored.
/// Or why it names none.
pub open spec fn hotkey_named(text: Seq<char>) -> Result<HotKey, Seq<char>> {
    let parts = split_on(text, '+');
    match modifiers_named(parts.drop_last()) {
        Err(part) => Err("Unknown modifier: "@ + part),
        Ok(modifiers) => match key_named(uppercased(trimmed(parts.last()))) {
            Some(key) => Ok(HotKey { modifiers, key }),
            None => Err("Unknown key: "@ + trimmed(parts.last())),
        },
    }
}

/// The file that holds a preset, or nothing where the name is no
/// preset's.
pub open spec fn preset_file(preset_name: Seq<char>) -> Option<Seq<char>> {
    if preset_name == "default"@ {
        Some("config.json"@)
    } else if preset_name == "setting1"@ {
        Some("config-1.json"@)
    } else if preset_name == "setting2"@ {
        Some("config-2.json"@)
    } else if preset_name == "setting3"@ {
        Some("config-3.json"@)
    } else if preset_name == "setting4"@ {
        Some("config-4.json"@)
    } else if preset_name == "setting5"@ {
        Some("config-5.json"@)
    } else if preset_name == "setting6"@ {
        Some("config-6.json"@)
    } else if preset_name == "setting7"@ {
        Some("config-7.json"@)
    } else if preset_name == "setting8"@ {
        Some("config-8.json"@)
    } else if preset_name == "setting9"@ {
        Some("config-9.json"@)
    } else {
        None
    }
}

/// The name a preset is shown under; a name that is no preset's is shown
/// as it is.
pub open spec fn preset_label(preset_name: Seq<char>) -> Seq<char> {
    if preset_name == "default"@ {
        "デフォルト設定"@
    } else if preset_name == "setting1"@ {
        "設定1"@
    } else if preset_name == "setting2"@ {
        "設定2"@
    } else if preset_name == "setting3"@ {
        "設定3"@
    } else if preset_name == "setting4"@ {
        "設定4"@
    } else if preset_name == "setting5"@ {
        "設定5"@
    } else if preset_name == "setting6"@ {
        "設定6"@
    } else if preset_name == "setting7"@ {
        "設定7"@
    } else if preset_name == "setting8"@ {
        "設定8"@
    } else if preset_name == "setting9"@ {
        "設定9"@
    } else {
        preset_name
    }
}

/// The API key after one more argument: the text behind
/// `--openai-api-key=` or `OPENAI_API_KEY=` where the argument starts with
/// one of them, the key as it was otherwise.
pub open spec fn key_after_arg(key: Seq<char>, arg: Seq<char>) -> Seq<char> {
    if is_prefix(arg, "--openai-api-key="@) {
        arg.subrange("--openai-api-key="@.len() as int, arg.len() as int)
    } else if is_prefix(arg, "OPENAI_API_KEY="@) {
        arg.subrange("OPENAI_API_KEY="@.len() as int, arg.len() as int)
    } else {
        key
    }
}

/// The API key after the arguments, taken in order.
pub open spec fn key_after_args(key: Seq<char>, args: Seq<Seq<char>>) -> Seq<char>
    decreases args.len(),
{
    if args.len() == 0 {
        key
    } else {
        key_after_arg(key_after_args(key, args.drop_last()), args.last())
    }
}

/// The modifier key that `name` stands for, the name in lower case.
pub fn modifier_of(name: &str) -> (m: Option<Modifier>)
    ensures
        m == modifier_named(name@),
{
    if same(name, "ctrl") || same(name, "control") {
        Some(Modifier::Control)
    } else if same(name, "shift") {
        Some(Modifier::Shift)
    } else if same(name, "alt") {
        Some(Modifier::Alt)
    } else if same(name, "super") || same(name, "win") || same(name, "cmd") {
        Some(Modifier::Super)
    } else {
        None
    }
}

/// The key that `name` stands for, the name in upper case.
pub fn key_of(name: &str) -> (key: Option<Code>)
    ensures
        key == key_named(name@),
{
    if same(name, "A") {
        Some(Code::KeyA)
    } else if same(name, "B") {
        Some(Code::KeyB)
    } else if same(name, "C") {
        Some(Code::KeyC)
    } else if same(name, "D") {
        Some(Code::KeyD)
    } else if same(name, "E") {
        Some(Code::KeyE)
    } else if same(name, "F") {
        Some(Code::KeyF)
    } else if same(name, "G") {
        Some(Code::KeyG)
    } else if same(name, "H") {
        Some(Code::KeyH)
    } else if same(name, "I") {
        Some(Code::KeyI)
    } else if same(name, "J") {
        Some(Code::KeyJ)
    } else if same(name, "K") {
        Some(Code::KeyK)
    } else if same(name, "L") {
        Some(Code::KeyL)
    } else if same(name, "M") {
        Some(Code::KeyM)
    } else if same(name, "N") {
        Some(Code::KeyN)
    } else if same(name, "O") {
        Some(Code::KeyO)
    } else if same(name, "P") {
        Some(Code::KeyP)
    } else if same(name, "Q") {
        Some(Code::KeyQ)
    } else if same(name, "R") {
        Some(Code::KeyR)
    } else if same(name, "S") {
        Some(Code::KeyS)
    } else if same(name, "T") {
        Some(Code::KeyT)
    } else if same(name, "U") {
        Some(Code::KeyU)
    } else if same(name, "V") {
        Some(Code::KeyV)
    } else if same(name, "W") {
        Some(Code::KeyW)
    } else if same(name, "X") {
        Some(Code::KeyX)
    } else if same(name, "Y") {
        Some(Code::KeyY)
    } else if same(name, "Z") {
        Some(Code::KeyZ)
    } else if same(name, "0") {
        Some(Code::Digit0)
    } else if same(name, "1") {
        Some(Code::Digit1)
    } else if same(name, "2") {
        Some(Code::Digit2)
    } else if same(name, "3") {
        Some(Code::Digit3)
    } else if same(name, "4") {
        Some(Code::Digit4)
    } else if same(name, "5") {
        Some(Code::Digit5)
    } else if same(name, "6") {
        Some(Code::Digit6)
    } else if same(name, "7") {
        Some(Code::Digit7)
    } else if same(name, "8") {
        Some(Code::Digit8)
    } else if same(name, "9") {
        Some(Code::Digit9)
    } else if same(name, "F1") {
        Some(Code::F1)
    } else if same(name, "F2") {
        Some(Code::F2)
    } else if same(name, "F3") {
        Some(Code::F3)
    } else if same(name, "F4") {
        Some(Code::F4)
    } else if same(name, "F5") {
        Some(Code::F5)
    } else if same(name, "F6") {
        Some(Code::F6)
    } else if same(name, "F7") {
        Some(Code::F7)
    } else if same(name, "F8") {
        Some(Code::F8)
    } else if same(name, "F9") {
        Some(Code::F9)
    } else if same(name, "F10") {
        Some(Code::F10)
    } else if same(name, "F11") {
        Some(Code::F11)
    } else if same(name, "F12") {
        Some(Code::F12)
    } else {
        None
    }
}

/// The view of a parsed hotkey or of the reason there is none.
pub open spec fn hotkey_view(r: Result<HotKey, String>) -> Result<HotKey, Seq<char>> {
    match r {
        Ok(h) => Ok(h),
        Err(e) => Err(e@),
    }
}

/// The view of an optional string.
pub open spec fn text_view(r: Option<String>) -> Option<Seq<char>> {
    match r {
        Some(s) => Some(s@),
        None => None,
    }
}

impl Config {
    /// The thresholds of the level monitor.
    pub fn thresholds(&self) -> (t: ThresholdPair)
        ensures
            t == (ThresholdPair {
                start_threshold: self.start_threshold,
                silence_threshold: self.silence_threshold,
                silence_duration_ms: self.silence_duration_ms,
            }),
    {
        ThresholdPair {
            start_threshold: self.start_threshold,
            silence_threshold: self.silence_threshold,
            silence_duration_ms: self.silence_duration_ms,
        }
    }

    /// What a new conversational session is made from.
    pub fn agent_settings(&self) -> (agent: AgentSettings)
        ensures
            agent@ == (AgentSettingsView {
                server_url: self.grok_http_server_url@,
                model: self.grok_model@,
                max_turns: self.max_length_of_conversation_history as nat,
                system_prompt: self.system_prompt@,
            }),
    {
        AgentSettings {
            server_url: self.grok_http_server_url.clone(),
            model: self.grok_model.clone(),
            max_history_length: self.max_length_of_conversation_history,
            system_prompt: self.system_prompt.clone(),
        }
    }

    /// Where the configured microphone stands in the list of microphones:
    /// the first place that holds its name, or the head of the list where
    /// none does or none is configured.
    pub fn device_index(&self, devices: &Vec<String>) -> (index: usize)
        ensures
            index == device_position(string_views(devices@), text_view(self.input_device_name)),
    {
        match &self.input_device_name {
            None => 0,
            Some(name) => {
                let mut i: usize = 0;
                while i < devices.len()
                    invariant
                        i <= devices.len(),
                        text_view(self.input_device_name) == Some(name@),
                        forall|j: int| 0 <= j < i ==> devices@[j]@ != name@,
                    decreases devices.len() - i,
                {
                    if same(devices[i].as_str(), name.as_str()) {
                        assert(device_position(string_views(devices@), Some(name@)) == i) by {
                            lemma_device_position(string_views(devices@), name@, i as int);
                        }
                        return i;
                    }
                    i += 1;
                }
                proof {
                    lemma_device_position_absent(string_views(devices@), name@);
                }
                0
            },
        }
    }

    /// The microphone to open, by name, or nothing where the choice is left
    /// to the system.
    pub fn capture_device(&self) -> (device: Option<&str>)
        ensures
            match device {
                Some(name) => self.input_device_name matches Some(configured) && name@
                    == configured@ && name@ != system_default_device(),
                None => self.input_device_name matches Some(configured) ==> configured@
                    == system_default_device(),
            },
    {
        match &self.input_device_name {
            Some(name) => if same(name.as_str(), "Windows既定") {
                None
            } else {
                Some(name.as_str())
            },
            None => None,
        }
    }

    /// The hotkey that the configuration names, or why it names none.
    pub fn parse_hotkey(&self) -> (r: Result<HotKey, String>)
        ensures
            hotkey_view(r) == hotkey_named(self.hotkey@),
    {
        let parts = split(self.hotkey.as_str(), '+');
        let ghost pieces = split_on(self.hotkey@, '+');
        proof {
            lemma_split_is_not_empty(self.hotkey@, '+');
        }
        let n = parts.len();
        let mut modifiers = Modifiers::empty();
        let mut i: usize = 0;
        while i + 1 < n
            invariant
                n == parts@.len(),
                n >= 1,
                i + 1 <= n,
                string_views(parts@) == pieces,
                pieces == split_on(self.hotkey@, '+'),
                modifiers_named(pieces.take(i as int)) == Ok::<Modifiers, Seq<char>>(modifiers),
            decreases n - i,
        {
            let part = trim(parts[i].as_str());
            let ghost upto = pieces.take(i + 1);
            assert(upto.drop_last() =~= pieces.take(i as int));
            assert(upto.last() == parts@[i as int]@);
            match modifier_of(to_lowercase(part).as_str()) {
                Some(m) => {
                    modifiers.insert(m);
                },
                None => {
                    proof {
                        assert(pieces.drop_last().take(i + 1) =~= upto);
                        assert(modifiers_named(upto) == Err::<Modifiers, Seq<char>>(part@));
                        lemma_first_unknown_modifier(pieces.drop_last(), i + 1);
                    }
                    return Err(join2("Unknown modifier: ", part));
                },
            }
            i += 1;
        }
        assert(pieces.take(i as int) =~= pieces.drop_last());
        let key_str = trim(parts[n - 1].as_str());
        assert(pieces.last() == parts@[n - 1]@);
        match key_of(to_uppercase(key_str).as_str()) {
            Some(key) => Ok(HotKey { modifiers, key }),
            None => Err(join2("Unknown key: ", key_str)),
        }
    }

    /// The file that holds a preset, as a path below the directory of the
    /// settings.
    pub fn config_path_for_preset(preset_name: &str) -> (r: Result<String, String>)
        ensures
            match preset_file(preset_name@) {
                Some(file) => r matches Ok(got) && got@ == file,
                None => r matches Err(e) && e@ == "Unknown preset: "@ + preset_name@,
            },
    {
        let filename = if same(preset_name, "default") {
            "config.json"
        } else if same(preset_name, "setting1") {
            "config-1.json"
        } else if same(preset_name, "setting2") {
            "config-2.json"
        } else if same(preset_name, "setting3") {
            "config-3.json"
        } else if same(preset_name, "setting4") {
            "config-4.json"
        } else if same(preset_name, "setting5") {
            "config-5.json"
        } else if same(preset_name, "setting6") {
            "config-6.json"
        } else if same(preset_name, "setting7") {
            "config-7.json"
        } else if same(preset_name, "setting8") {
            "config-8.json"
        } else if same(preset_name, "setting9") {
            "config-9.json"
        } else {
            return Err(join2("Unknown preset: ", preset_name));
        };
        Ok(owned(filename))
    }

    /// The file that holds the default preset.
    pub fn config_path() -> (r: Result<String, String>)
        ensures
            r matches Ok(got) && got@ == "config.json"@,
    {
        Self::config_path_for_preset("default")
    }

    /// The names of the presets.
    pub fn list_presets() -> (names: Vec<String>)
        ensures
            string_views(names@) == seq![
                "default"@,
                "setting1"@,
                "setting2"@,
                "setting3"@,
                "setting4"@,
                "setting5"@,
                "setting6"@,
                "setting7"@,
                "setting8"@,
                "setting9"@,
            ],
    {
        let mut names: Vec<String> = Vec::new();
        names.push(owned("default"));
        names.push(owned("setting1"));
        names.push(owned("setting2"));
        names.push(owned("setting3"));
        names.push(owned("setting4"));
        names.push(owned("setting5"));
        names.push(owned("setting6"));
        names.push(owned("setting7"));
        names.push(owned("setting8"));
        names.push(owned("setting9"));
        assert(string_views(names@) =~= seq![
            "default"@,
            "setting1"@,
            "setting2"@,
            "setting3"@,
            "setting4"@,
            "setting5"@,
            "setting6"@,
            "setting7"@,
            "setting8"@,
            "setting9"@,
        ]);
        names
    }

    /// The name a preset is shown under.
    pub fn preset_display_name(preset_name: &str) -> (label: String)
        ensures
            label@ == preset_label(preset_name@),
    {
        if same(preset_name, "default") {
            owned("デフォルト設定")
        } else if same(preset_name, "setting1") {
            owned("設定1")
        } else if same(preset_name, "setting2") {
            owned("設定2")
        } else if same(preset_name, "setting3") {
            owned("設定3")
        } else if same(preset_name, "setting4") {
            owned("設定4")
        } else if same(preset_name, "setting5") {
            owned("設定5")
        } else if same(preset_name, "setting6") {
            owned("設定6")
        } else if same(preset_name, "setting7") {
            owned("設定7")
        } else if same(preset_name, "setting8") {
            owned("設定8")
        } else if same(preset_name, "setting9") {
            owned("設定9")
        } else {
            owned(preset_name)
        }
    }

    /// Takes the API key from the command line: the last argument of the
    /// form `--openai-api-key=KEY` or `OPENAI_API_KEY=KEY` sets it.
    pub fn apply_args(&mut self, args: &Vec<String>)
        ensures
            final(self).openai_api_key@ == key_after_args(
                old(self).openai_api_key@,
                string_views(args@),
            ),
            final(self).start_threshold == old(self).start_threshold,
            final(self).silence_threshold == old(self).silence_threshold,
            final(self).silence_duration_ms == old(self).silence_duration_ms,
            final(self).whisper_model == old(self).whisper_model,
            final(self).custom_prompt == old(self).custom_prompt,
            final(self).grok_http_server_url == old(self).grok_http_server_url,
            final(self).grok_model == old(self).grok_model,
            final(self).max_length_of_conversation_history == old(
                self,
            ).max_length_of_conversation_history,
            final(self).system_prompt == old(self).system_prompt,
            final(self).input_device_name == old(self).input_device_name,
            final(self).hotkey == old(self).hotkey,
            final(self).use_vrchat_mute_detection == old(self).use_vrchat_mute_detection,
    {
        let ghost views = string_views(args@);
        let mut i: usize = 0;
        while i < args.len()
            invariant
                i <= args.len(),
                views == string_views(args@),
                self.openai_api_key@ == key_after_args(old(self).openai_api_key@, views.take(i as int)),
                self.start_threshold == old(self).start_threshold,
                self.silence_threshold == old(self).silence_threshold,
                self.silence_duration_ms == old(self).silence_duration_ms,
                self.whisper_model == old(self).whisper_model,
                self.custom_prompt == old(self).custom_prompt,
                self.grok_http_server_url == old(self).grok_http_server_url,
                self.grok_model == old(self).grok_model,
                self.max_length_of_conversation_history == old(
                    self,
                ).max_length_of_conversation_history,
                self.system_prompt == old(self).system_prompt,
                self.input_device_name == old(self).input_device_name,
                self.hotkey == old(self).hotkey,
                self.use_vrchat_mute_detection == old(self).use_vrchat_mute_detection,
            decreases args.len() - i,
        {
            assert(views.take(i + 1).drop_last() =~= views.take(i as int));
            assert(views.take(i + 1).last() == args@[i as int]@);
            let arg = args[i].as_str();
            match strip_prefix(arg, "--openai-api-key=") {
                Some(key) => {
                    self.openai_api_key = owned(key);
                },
                None => match strip_prefix(arg, "OPENAI_API_KEY=") {
                    Some(key) => {
                        self.openai_api_key = owned(key);
                    },
                    None => {},
                },
            }
            i += 1;
        }
        assert(views.take(i as int) =~= views);
    }
}

/// The first place in `devices` that holds `name`, or zero where none does
/// or no name is given.
pub open spec fn device_position(devices: Seq<Seq<char>>, name: Option<Seq<char>>) -> int {
    match name {
        Some(name) => devices.index_of_first(name).unwrap_or(0),
        None => 0,
    }
}

proof fn lemma_device_position(devices: Seq<Seq<char>>, name: Seq<char>, i: int)
    requires
        0 <= i < devices.len(),
        devices[i] == name,
        forall|j: int| 0 <= j < i ==> devices[j] != name,
    ensures
        device_position(devices, Some(name)) == i,
{
    devices.index_of_first_ensures(name);
}

proof fn lemma_device_position_absent(devices: Seq<Seq<char>>, name: Seq<char>)
    requires
        forall|j: int| 0 <= j < devices.len() ==> devices[j] != name,
    ensures
        device_position(devices, Some(name)) == 0,
{
    devices.index_of_first_ensures(name);
}

/// Splitting gives at least one piece.
pub proof fn lemma_split_is_not_empty(s: Seq<char>, sep: char)
    ensures
        split_on(s, sep).len() >= 1,
    decreases s.len(),
{
    if s.len() > 0 {
        lemma_split_is_not_empty(s.drop_last(), sep);
    }
}

/// Where the first `k` parts name no modifier keys, all the parts name
/// none, and the part at fault is the same.
proof fn lemma_first_unknown_modifier(parts: Seq<Seq<char>>, k: int)
    requires
        0 <= k <= parts.len(),
        modifiers_named(parts.take(k)) is Err,
    ensures
        modifiers_named(parts) == modifiers_named(parts.take(k)),
    decreases parts.len() - k,
{
    if k < parts.len() {
        assert(parts.take(k + 1).drop_last() =~= parts.take(k));
        lemma_first_unknown_modifier(parts, k + 1);
    } else {
        assert(parts.take(k) =~= parts);
    }
}

/// A hotkey without a `+` names a key alone, with no modifier key.
pub proof fn lemma_single_part_hotkey(text: Seq<char>)
    requires
        split_on(text, '+').len() == 1,
    ensures
        hotkey_named(text) == match key_named(uppercased(trimmed(split_on(text, '+')[0]))) {
            Some(key) => Ok::<HotKey, Seq<char>>(HotKey { modifiers: Modifiers::none(), key }),
            None => Err("Unknown key: "@ + trimmed(split_on(text, '+')[0])),
        },
{
    let parts = split_on(text, '+');
    assert(parts.drop_last().len() == 0);
}

} // verus!
