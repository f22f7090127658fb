//! Configuration model: a fully-defaulted, immutable snapshot of every
//! tunable parameter.
//!
//! A configuration is built from the first candidate TOML source that parses,
//! with every missing field falling back to its documented default
//! independently; when no candidate resolves at all, the whole configuration
//! is the default one.  The caller hands over the candidate file contents in
//! search order; reading files is not this module's business.

use vstd::prelude::*;

verus! {

/// The resolved configuration snapshot.
pub struct Config {
    pub colors: ColorConfig,
    pub window: WindowConfig,
    pub fonts: FontConfig,
}

/// Color tokens for the two rendered blocks.  Required in any configuration
/// source; defaulted only when no source resolves at all.
pub struct ColorConfig {
    pub time: String,
    pub date: String,
}

/// Canvas geometry and placement parameters.
pub struct WindowConfig {
    pub margin_top: i32,
    pub margin_right: i32,
    pub width: i32,
    pub height: i32,
    pub monitor: String,
    pub date_offset: i32,
}

/// Nominal font sizes for the two rendered blocks.
pub struct FontConfig {
    pub time_size: i32,
    pub date_size: i32,
}

pub fn default_margin_top() -> (r: i32)
    ensures
        r == 10,
{
    10
}

pub fn default_margin_right() -> (r: i32)
    ensures
        r == 10,
{
    10
}

pub fn default_width() -> (r: i32)
    ensures
        r == 400,
{
    400
}

pub fn default_height() -> (r: i32)
    ensures
        r == 180,
{
    180
}

pub fn default_time_size() -> (r: i32)
    ensures
        r == 12,
{
    12
}

pub fn default_date_size() -> (r: i32)
    ensures
        r == 10,
{
    10
}

pub fn default_monitor() -> (r: String)
    ensures
        r@ == "DP-1"@,
{
    String::from_str("DP-1")
}

pub fn default_date_offset() -> (r: i32)
    ensures
        r == -65,
{
    -65
}

/// A window section with every field at its default.
pub open spec fn spec_default_window(w: WindowConfig) -> bool {
    &&& w.margin_top == 10
    &&& w.margin_right == 10
    &&& w.width == 400
    &&& w.height == 180
    &&& w.monitor@ == "DP-1"@
    &&& w.date_offset == -65
}

/// A fonts section with every field at its default.
pub open spec fn spec_default_fonts(f: FontConfig) -> bool {
    f.time_size == 12 && f.date_size == 10
}

impl core::default::Default for WindowConfig {
    fn default() -> (r: Self)
        ensures
            spec_default_window(r),
    {
        WindowConfig {
            margin_top: default_margin_top(),
            margin_right: default_margin_right(),
            width: default_width(),
            height: default_height(),
            monitor: default_monitor(),
            date_offset: default_date_offset(),
        }
    }
}

impl core::default::Default for FontConfig {
    fn default() -> (r: Self)
        ensures
            spec_default_fonts(r),
    {
        FontConfig { time_size: default_time_size(), date_size: default_date_size() }
    }
}

/// What one configuration source yields before defaults are applied: the two
/// required color tokens, and every optional field as found or absent.
pub struct RawConfig {
    pub time: String,
    pub date: String,
    pub margin_top: Option<i32>,
    pub margin_right: Option<i32>,
    pub width: Option<i32>,
    pub height: Option<i32>,
    pub monitor: Option<String>,
    pub date_offset: Option<i32>,
    pub time_size: Option<i32>,
    pub date_size: Option<i32>,
}

/// How `c` completes `raw`: present fields are kept, absent fields take their
/// documented defaults, each independently of the others.
pub open spec fn spec_from_raw(c: Config, raw: RawConfig) -> bool {
    &&& c.colors.time@ == raw.time@
    &&& c.colors.date@ == raw.date@
    &&& c.window.margin_top == if raw.margin_top is Some { raw.margin_top->0 } else { 10i32 }
    &&& c.window.margin_right == if raw.margin_right is Some { raw.margin_right->0 } else { 10i32 }
    &&& c.window.width == if raw.width is Some { raw.width->0 } else { 400i32 }
    &&& c.window.height == if raw.height is Some { raw.height->0 } else { 180i32 }
    &&& c.window.monitor@ == if raw.monitor is Some { raw.monitor->0@ } else { "DP-1"@ }
    &&& c.window.date_offset == if raw.date_offset is Some { raw.date_offset->0 } else { -65i32 }
    &&& c.fonts.time_size == if raw.time_size is Some { raw.time_size->0 } else { 12i32 }
    &&& c.fonts.date_size == if raw.date_size is Some { raw.date_size->0 } else { 10i32 }
}

/// The configuration used when no source resolves: a blue/dark-gray color
/// pair over all-default window and font sections.
pub open spec fn spec_default_config(c: Config) -> bool {
    &&& c.colors.time@ == "Blue"@
    &&& c.colors.date@ == "DarkGray"@
    &&& spec_default_window(c.window)
    &&& spec_default_fonts(c.fonts)
}

/// Why `Config::load` can fail: no candidate source resolved.
#[derive(Clone, Copy, Debug, PartialEq, Eq, Structural)]
pub enum ConfigError {
    NotFound,
}

#[verifier::external_type_specification]
#[verifier::external_body]
pub struct ExTomlValue(toml::Value);

pub uninterp spec fn toml_doc_of(s: Seq<char>) -> Option<toml::Value>;

pub uninterp spec fn toml_field_of(v: toml::Value, key: Seq<char>) -> Option<toml::Value>;

pub uninterp spec fn toml_str_of(v: toml::Value) -> Option<Seq<char>>;

pub uninterp spec fn toml_int_of(v: toml::Value) -> Option<i64>;

pub uninterp spec fn toml_is_table_of(v: toml::Value) -> bool;

/// Relies on `toml::Table`'s `FromStr` impl: parses a TOML document into its
/// top-level table, `None` when the text is not valid TOML.  The result is a
/// function of the text alone, named `toml_doc_of`.
#[verifier::external_body]
fn toml_parse(s: &str) -> (r: Option<toml::Value>)
    ensures
        r == toml_doc_of(s@),
{
    s.parse::<toml::Table>().ok().map(toml::Value::Table)
}

/// Relies on `toml::Value::get`: the value under a key of a TOML table,
/// `None` when the key is absent or the value is not a table.
#[verifier::external_body]
fn toml_get<'a>(v: &'a toml::Value, key: &str) -> (r: Option<&'a toml::Value>)
    ensures
        match r {
            Some(x) => toml_field_of(*v, key@) == Some(*x),
            None => toml_field_of(*v, key@) is None,
        },
{
    v.get(key)
}

/// Relies on `toml::Value::is_table`.
#[verifier::external_body]
fn toml_is_table(v: &toml::Value) -> (r: bool)
    ensures
        r == toml_is_table_of(*v),
{
    v.is_table()
}

/// Relies on `toml::Value::as_str`: the string payload, `None` for any other
/// kind of value.
#[verifier::external_body]
fn toml_as_str(v: &toml::Value) -> (r: Option<String>)
    ensures
        match r {
            Some(s) => toml_str_of(*v) == Some(s@),
            None => toml_str_of(*v) is None,
        },
{
    v.as_str().map(|s| s.to_owned())
}

/// Relies on `toml::Value::as_integer`: the integer payload, `None` for any
/// other kind of value.
#[verifier::external_body]
fn toml_as_integer(v: &toml::Value) -> (r: Option<i64>)
    ensures
        r == toml_int_of(*v),
{
    v.as_integer()
}

/// The shape rule for an optional integer field: absent is fine, present
/// must be an integer in `i32` range, anything else spoils the source.
pub open spec fn spec_opt_int(section: toml::Value, key: Seq<char>) -> Result<Option<i32>, ()> {
    match toml_field_of(section, key) {
        None => Ok(None),
        Some(v) => match toml_int_of(v) {
            Some(x) => if -2147483648 <= x <= 2147483647 {
                Ok(Some(x as i32))
            } else {
                Err(())
            },
            None => Err(()),
        },
    }
}

/// The shape rule for an optional string field.
pub open spec fn spec_opt_str(section: toml::Value, key: Seq<char>) -> Result<
    Option<Seq<char>>,
    (),
> {
    match toml_field_of(section, key) {
        None => Ok(None),
        Some(v) => match toml_str_of(v) {
            Some(s) => Ok(Some(s)),
            None => Err(()),
        },
    }
}

/// The two required color tokens of a document, when its `colors` section
/// carries both as strings.
pub open spec fn spec_colors_of(doc: toml::Value) -> Option<(Seq<char>, Seq<char>)> {
    match toml_field_of(doc, "colors"@) {
        None => None,
        Some(colors) => match (spec_opt_str(colors, "time"@), spec_opt_str(colors, "date"@)) {
            (Ok(Some(t)), Ok(Some(d))) => Some((t, d)),
            _ => None,
        },
    }
}

/// The `window` section, if present, is a table whose known fields all have
/// the right shape.
pub open spec fn spec_window_ok(doc: toml::Value) -> bool {
    match toml_field_of(doc, "window"@) {
        None => true,
        Some(w) => {
            &&& toml_is_table_of(w)
            &&& spec_opt_int(w, "margin_top"@) is Ok
            &&& spec_opt_int(w, "margin_right"@) is Ok
            &&& spec_opt_int(w, "width"@) is Ok
            &&& spec_opt_int(w, "height"@) is Ok
            &&& spec_opt_str(w, "monitor"@) is Ok
            &&& spec_opt_int(w, "date_offset"@) is Ok
        },
    }
}

/// An integer field of the `window` section, if the section and field are
/// present and well-shaped.
pub open spec fn spec_window_int(doc: toml::Value, key: Seq<char>) -> Option<i32> {
    match toml_field_of(doc, "window"@) {
        None => None,
        Some(w) => match spec_opt_int(w, key) {
            Ok(v) => v,
            Err(_) => None,
        },
    }
}

/// The `monitor` field of the `window` section, if present and well-shaped.
pub open spec fn spec_window_str(doc: toml::Value, key: Seq<char>) -> Option<Seq<char>> {
    match toml_field_of(doc, "window"@) {
        None => None,
        Some(w) => match spec_opt_str(w, key) {
            Ok(v) => v,
            Err(_) => None,
        },
    }
}

/// The `fonts` section, if present, is a table whose known fields all have
/// the right shape.
pub open spec fn spec_fonts_ok(doc: toml::Value) -> bool {
    match toml_field_of(doc, "fonts"@) {
        None => true,
        Some(f) => {
            &&& toml_is_table_of(f)
            &&& spec_opt_int(f, "time_size"@) is Ok
            &&& spec_opt_int(f, "date_size"@) is Ok
        },
    }
}

/// An integer field of the `fonts` section, if the section and field are
/// present and well-shaped.
pub open spec fn spec_fonts_int(doc: toml::Value, key: Seq<char>) -> Option<i32> {
    match toml_field_of(doc, "fonts"@) {
        None => None,
        Some(f) => match spec_opt_int(f, key) {
            Ok(v) => v,
            Err(_) => None,
        },
    }
}

/// A parsed document resolves when it carries both color tokens and every
/// present optional field has the right shape.
pub open spec fn spec_doc_resolves(doc: toml::Value) -> bool {
    &&& spec_colors_of(doc) is Some
    &&& spec_window_ok(doc)
    &&& spec_fonts_ok(doc)
}

/// The present value, or the default.
pub open spec fn spec_i32_or(v: Option<i32>, d: i32) -> i32 {
    if v is Some {
        v->0
    } else {
        d
    }
}

/// `c` is exactly what a resolving document yields: its two color tokens,
/// every present optional field, and the documented default for each absent
/// one, independently.
pub open spec fn spec_config_of_doc(c: Config, doc: toml::Value) -> bool {
    &&& spec_colors_of(doc) matches Some(p) && c.colors.time@ == p.0 && c.colors.date@ == p.1
    &&& c.window.margin_top == spec_i32_or(spec_window_int(doc, "margin_top"@), 10)
    &&& c.window.margin_right == spec_i32_or(spec_window_int(doc, "margin_right"@), 10)
    &&& c.window.width == spec_i32_or(spec_window_int(doc, "width"@), 400)
    &&& c.window.height == spec_i32_or(spec_window_int(doc, "height"@), 180)
    &&& c.window.monitor@ == match spec_window_str(doc, "monitor"@) {
        Some(m) => m,
        None => "DP-1"@,
    }
    &&& c.window.date_offset == spec_i32_or(spec_window_int(doc, "date_offset"@), -65i32)
    &&& c.fonts.time_size == spec_i32_or(spec_fonts_int(doc, "time_size"@), 12)
    &&& c.fonts.date_size == spec_i32_or(spec_fonts_int(doc, "date_size"@), 10)
}

/// The view of an optional string.
pub open spec fn spec_opt_str_view(o: Option<String>) -> Option<Seq<char>> {
    match o {
        Some(s) => Some(s@),
        None => None,
    }
}

/// `raw` holds exactly the fields the document carries.
pub open spec fn spec_raw_of_doc(raw: RawConfig, doc: toml::Value) -> bool {
    &&& spec_colors_of(doc) matches Some(p) && raw.time@ == p.0 && raw.date@ == p.1
    &&& raw.margin_top == spec_window_int(doc, "margin_top"@)
    &&& raw.margin_right == spec_window_int(doc, "margin_right"@)
    &&& raw.width == spec_window_int(doc, "width"@)
    &&& raw.height == spec_window_int(doc, "height"@)
    &&& spec_opt_str_view(raw.monitor) == spec_window_str(doc, "monitor"@)
    &&& raw.date_offset == spec_window_int(doc, "date_offset"@)
    &&& raw.time_size == spec_fonts_int(doc, "time_size"@)
    &&& raw.date_size == spec_fonts_int(doc, "date_size"@)
}

/// A candidate resolves when it was readable, parses as TOML and its
/// document resolves.
pub open spec fn spec_source_resolves(src: Option<String>) -> bool {
    match src {
        Some(s) => match toml_doc_of(s@) {
            Some(doc) => spec_doc_resolves(doc),
            None => false,
        },
        None => false,
    }
}

/// No candidate resolves.
pub open spec fn spec_none_resolves(sources: Seq<Option<String>>) -> bool {
    forall|i: int| 0 <= i < sources.len() ==> !spec_source_resolves(#[trigger] sources[i])
}

/// `c` comes from the first resolving candidate: some candidate resolves,
/// every earlier one does not, and `c` is exactly what its document yields.
pub open spec fn spec_first_loaded(c: Config, sources: Seq<Option<String>>) -> bool {
    exists|i: int|
        {
            &&& 0 <= i < sources.len()
            &&& #[trigger] spec_source_resolves(sources[i])
            &&& forall|j: int| 0 <= j < i ==> !spec_source_resolves(#[trigger] sources[j])
            &&& spec_config_of_doc(c, toml_doc_of(sources[i]->0@)->0)
        }
}

/// An optional integer field of a section: `Ok(None)` when absent,
/// `Ok(Some(_))` when present as an integer in `i32` range, `Err` when
/// present in any other shape, which invalidates the whole source.
fn opt_int_field(section: &toml::Value, key: &str) -> (r: Result<Option<i32>, ()>)
    ensures
        r == spec_opt_int(*section, key@),
{
    match toml_get(section, key) {
        None => Ok(None),
        Some(v) => {
            match toml_as_integer(v) {
                Some(x) => {
                    if -2147483648i64 <= x && x <= 2147483647i64 {
                        Ok(Some(x as i32))
                    } else {
                        Err(())
                    }
                },
                None => Err(()),
            }
        },
    }
}

/// An optional string field of a section, with the same shape rules as
/// `opt_int_field`.
fn opt_str_field(section: &toml::Value, key: &str) -> (r: Result<Option<String>, ()>)
    ensures
        match r {
            Ok(o) => spec_opt_str(*section, key@) == Ok::<Option<Seq<char>>, ()>(
                spec_opt_str_view(o),
            ),
            Err(e) => spec_opt_str(*section, key@) is Err,
        },
{
    match toml_get(section, key) {
        None => Ok(None),
        Some(v) => {
            match toml_as_str(v) {
                Some(s) => Ok(Some(s)),
                None => Err(()),
            }
        },
    }
}

/// Reads one parsed TOML document into raw configuration fields: the
/// `colors` section with both tokens is required; the `window` and `fonts`
/// sections and each of their fields are optional, but any present field of
/// the wrong shape invalidates the source.
fn raw_from_value(doc: &toml::Value) -> (r: Option<RawConfig>)
    ensures
        r is Some <==> spec_doc_resolves(*doc),
        r matches Some(raw) ==> spec_raw_of_doc(raw, *doc),
{
    let colors = match toml_get(doc, "colors") {
        Some(c) => c,
        None => {
            return None;
        },
    };
    let time = match opt_str_field(colors, "time") {
        Ok(Some(s)) => s,
        _ => {
            return None;
        },
    };
    let date = match opt_str_field(colors, "date") {
        Ok(Some(s)) => s,
        _ => {
            return None;
        },
    };
    let mut raw = RawConfig {
        time,
        date,
        margin_top: None,
        margin_right: None,
        width: None,
        height: None,
        monitor: None,
        date_offset: None,
        time_size: None,
        date_size: None,
    };
    match toml_get(doc, "window") {
        None => {},
        Some(w) => {
            if !toml_is_table(w) {
                return None;
            }
            raw.margin_top = match opt_int_field(w, "margin_top") {
                Ok(v) => v,
                Err(_) => {
                    return None;
                },
            };
            raw.margin_right = match opt_int_field(w, "margin_right") {
                Ok(v) => v,
                Err(_) => {
                    return None;
                },
            };
            raw.width = match opt_int_field(w, "width") {
                Ok(v) => v,
                Err(_) => {
                    return None;
                },
            };
            raw.height = match opt_int_field(w, "height") {
                Ok(v) => v,
                Err(_) => {
                    return None;
                },
            };
            raw.monitor = match opt_str_field(w, "monitor") {
                Ok(v) => v,
                Err(_) => {
                    return None;
                },
            };
            raw.date_offset = match opt_int_field(w, "date_offset") {
                Ok(v) => v,
                Err(_) => {
                    return None;
                },
            };
        },
    }
    match toml_get(doc, "fonts") {
        None => {},
        Some(f) => {
            if !toml_is_table(f) {
                return None;
            }
            raw.time_size = match opt_int_field(f, "time_size") {
                Ok(v) => v,
                Err(_) => {
                    return None;
                },
            };
            raw.date_size = match opt_int_field(f, "date_size") {
                Ok(v) => v,
                Err(_) => {
                    return None;
                },
            };
        },
    }
    Some(raw)
}

impl Config {
    /// Completes one source's raw fields into a full configuration,
    /// defaulting each missing field independently.
    pub fn from_raw(raw: RawConfig) -> (c: Config)
        ensures
            spec_from_raw(c, raw),
    {
        let window = WindowConfig {
            margin_top: match raw.margin_top {
                Some(v) => v,
                None => default_margin_top(),
            },
            margin_right: match raw.margin_right {
                Some(v) => v,
                None => default_margin_right(),
            },
            width: match raw.width {
                Some(v) => v,
                None => default_width(),
            },
            height: match raw.height {
                Some(v) => v,
                None => default_height(),
            },
            monitor: match raw.monitor {
                Some(v) => v,
                None => default_monitor(),
            },
            date_offset: match raw.date_offset {
                Some(v) => v,
                None => default_date_offset(),
            },
        };
        let fonts = FontConfig {
            time_size: match raw.time_size {
                Some(v) => v,
                None => default_time_size(),
            },
            date_size: match raw.date_size {
                Some(v) => v,
                None => default_date_size(),
            },
        };
        Config { colors: ColorConfig { time: raw.time, date: raw.date }, window, fonts }
    }

    /// The fully defaulted configuration.
    pub fn default_config() -> (c: Config)
        ensures
            spec_default_config(c),
    {
        Config {
            colors: ColorConfig {
                time: String::from_str("Blue"),
                date: String::from_str("DarkGray"),
            },
            window: WindowConfig::default(),
            fonts: FontConfig::default(),
        }
    }

    /// Builds the configuration from the first candidate source that
    /// resolves.
    ///
    /// Each entry is one candidate file's contents in search order, `None`
    /// standing for a file that was missing or unreadable.  A candidate that
    /// is not valid TOML, lacks the required color tokens, or types a field
    /// wrongly is skipped; the first resolving candidate decides the whole
    /// result, and only when no candidate resolves is `NotFound` reported.
    pub fn load(sources: &Vec<Option<String>>) -> (r: Result<Config, ConfigError>)
        ensures
            r is Err <==> spec_none_resolves(sources@),
            r matches Err(e) ==> e == ConfigError::NotFound,
            r matches Ok(c) ==> spec_first_loaded(c, sources@),
    {
        let n = sources.len();
        let mut i: usize = 0;
        while i < n
            invariant
                n == sources@.len(),
                i <= n,
                forall|j: int| 0 <= j < i ==> !spec_source_resolves(#[trigger] sources@[j]),
            decreases n - i,
        {
            match &sources[i] {
                Some(content) => {
                    match toml_parse(content.as_str()) {
                        Some(doc) => {
                            let ghost gdoc = doc;
                            match raw_from_value(&doc) {
                                Some(raw) => {
                                    let ghost graw = raw;
                                    let ghost gi = i as int;
                                    let c = Config::from_raw(raw);
                                    proof {
                                        assert(spec_config_of_doc(c, gdoc));
                                        assert(toml_doc_of(sources@[gi]->0@) == Some(gdoc));
                                        assert(spec_source_resolves(sources@[gi]));
                                    }
                                    let res: Result<Config, ConfigError> = Ok(c);
                                    assert(spec_first_loaded(res->Ok_0, sources@)) by {
                                        assert(spec_source_resolves(sources@[gi]));
                                        assert(spec_config_of_doc(
                                            res->Ok_0,
                                            toml_doc_of(sources@[gi]->0@)->0,
                                        ));
                                    }
                                    return res;
                                },
                                None => {},
                            }
                        },
                        None => {},
                    }
                },
                None => {},
            }
            i += 1;
        }
        Err(ConfigError::NotFound)
    }

    /// Builds the configuration from the candidate sources: what `load`
    /// yields from the first resolving candidate, or the fully defaulted
    /// configuration when none resolves.  Never fails, whatever the
    /// candidates hold.
    pub fn load_or_default(sources: &Vec<Option<String>>) -> (c: Config)
        ensures
            spec_none_resolves(sources@) ==> spec_default_config(c),
            !spec_none_resolves(sources@) ==> spec_first_loaded(c, sources@),
    {
        match Config::load(sources) {
            Ok(c) => c,
            Err(_) => Config::default_config(),
        }
    }
}

} // verus!
