//! The player's configuration as data: sources, stations, audio and
//! interface settings.
use vstd::prelude::*;

verus! {

/// Kinds of music source.
#[derive(Clone, Copy, Debug, PartialEq, Eq, Structural)]
pub enum ConfigSourceType {
    File,
    Stream,
    CD,
    KidsFile,
}

/// An internet radio station.
#[derive(Debug)]
pub struct Station {
    pub name: String,
    pub url: String,
    pub icon: String,
}

/// A configured music source.
#[derive(Debug)]
pub struct Source {
    pub source_type: ConfigSourceType,
    pub name: String,
    /// Directory of a file source, or device path of a CD source.
    pub path: String,
    pub stations: Vec<Station>,
}

/// Audio settings.
#[derive(Debug)]
pub struct AudioConfig {
    pub start_volume: u8,
    /// Maximum volume the player may reach (0–100).
    pub max_volume: u8,
    /// Name of the output device; `None` or "Default" means the system default.
    pub device: Option<String>,
}

/// Interface settings.
#[derive(Debug)]
pub struct UiConfig {
    pub hide_settings: bool,
    pub language: String,
}

/// The whole configuration.
#[derive(Debug)]
pub struct Config {
    pub sources: Vec<Source>,
    pub audio: AudioConfig,
    pub ui: UiConfig,
}

/// Maximum volume when the configuration names none.
pub fn default_max_volume() -> (r: u8)
    ensures
        r == 100,
{
    100
}

/// Interface language when the configuration names none.
pub fn default_language() -> (r: String)
    ensures
        r@ == "en"@,
{
    String::from_str("en")
}

impl Default for UiConfig {
    fn default() -> (r: Self)
        ensures
            !r.hide_settings,
            r.language@ == "en"@,
    {
        UiConfig { hide_settings: false, language: default_language() }
    }
}

impl Clone for Station {
    fn clone(&self) -> (r: Station)
        ensures
            r == *self,
    {
        Station { name: self.name.clone(), url: self.url.clone(), icon: self.icon.clone() }
    }
}

impl Clone for Source {
    fn clone(&self) -> (r: Source)
        ensures
            r.source_type == self.source_type,
            r.name == self.name,
            r.path == self.path,
            r.stations@ == self.stations@,
    {
        let mut stations: Vec<Station> = Vec::new();
        let mut i: usize = 0;
        while i < self.stations.len()
            invariant
                i <= self.stations@.len(),
                stations@ =~= self.stations@.subrange(0, i as int),
            decreases self.stations@.len() - i,
        {
            stations.push(self.stations[i].clone());
            i += 1;
        }
        Source {
            source_type: self.source_type,
            name: self.name.clone(),
            path: self.path.clone(),
            stations,
        }
    }
}

impl Clone for AudioConfig {
    fn clone(&self) -> (r: AudioConfig)
        ensures
            r == *self,
    {
        let device = match &self.device {
            Some(d) => Some(d.clone()),
            None => None,
        };
        AudioConfig { start_volume: self.start_volume, max_volume: self.max_volume, device }
    }
}

impl Clone for UiConfig {
    fn clone(&self) -> (r: UiConfig)
        ensures
            r == *self,
    {
        UiConfig { hide_settings: self.hide_settings, language: self.language.clone() }
    }
}

/// Two configurations hold the same values.
pub open spec fn same_config(a: &Config, b: &Config) -> bool {
    &&& a.audio == b.audio
    &&& a.ui == b.ui
    &&& a.sources@.len() == b.sources@.len()
    &&& forall|i: int|
        0 <= i < a.sources@.len() ==> {
            &&& (#[trigger] a.sources@[i]).source_type == b.sources@[i].source_type
            &&& a.sources@[i].name == b.sources@[i].name
            &&& a.sources@[i].path == b.sources@[i].path
            &&& a.sources@[i].stations@ == b.sources@[i].stations@
        }
}

impl Clone for Config {
    fn clone(&self) -> (r: Config)
        ensures
            same_config(&r, self),
    {
        let mut sources: Vec<Source> = Vec::new();
        let mut i: usize = 0;
        while i < self.sources.len()
            invariant
                i <= self.sources@.len(),
                sources@.len() == i,
                forall|k: int|
                    0 <= k < i ==> {
                        &&& (#[trigger] sources@[k]).source_type == self.sources@[k].source_type
                        &&& sources@[k].name == self.sources@[k].name
                        &&& sources@[k].path == self.sources@[k].path
                        &&& sources@[k].stations@ == self.sources@[k].stations@
                    },
            decreases self.sources@.len() - i,
        {
            sources.push(self.sources[i].clone());
            i += 1;
        }
        Config { sources, audio: self.audio.clone(), ui: self.ui.clone() }
    }
}

} // verus!
