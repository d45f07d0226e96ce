use vstd::prelude::*;

pub mod init_settings;

verus! {

#[derive(Debug, Clone, PartialEq, Eq)]
pub struct ServerSettings {
    pub host: String,
    pub port: u16,
}

#[derive(Debug, Clone, PartialEq, Eq)]
pub struct JwtSettings {
    pub secret: String,
    /// Token lifetime in seconds.
    pub expires_in: u64,
}

#[derive(Debug, Clone, PartialEq, Eq)]
pub struct ElasticsearchSettings {
    pub url: String,
}

/// The application's configuration, loaded once at start-up.
#[derive(Debug, Clone, PartialEq, Eq)]
pub struct Settings {
    pub environment: String,
    pub server: ServerSettings,
    pub jwt: JwtSettings,
    pub elasticsearch: ElasticsearchSettings,
}

/// Holds the settings once they are set; they are never replaced. The
/// application state owns one and hands it to whoever needs the settings.
pub struct SettingsCell {
    value: Option<Settings>,
}

impl View for SettingsCell {
    type V = Option<Settings>;

    closed spec fn view(&self) -> Option<Settings> {
        self.value
    }
}

impl SettingsCell {
    pub fn new() -> (r: SettingsCell)
        ensures
            r@ is None,
    {
        SettingsCell { value: None }
    }

    pub fn is_initialized(&self) -> (r: bool)
        ensures
            r == self@ is Some,
    {
        self.value.is_some()
    }

    pub fn get(&self) -> (r: Option<&Settings>)
        ensures
            match self@ {
                Some(s) => r == Some(&s),
                None => r is None,
            },
    {
        match &self.value {
            Some(s) => Some(s),
            None => None,
        }
    }

    /// Stores `s` unless settings are already stored; says whether it did.
    pub fn set(&mut self, s: Settings) -> (r: bool)
        ensures
            r == old(self)@ is None,
            final(self)@ == (if r {
                Some(s)
            } else {
                old(self)@
            }),
    {
        if self.value.is_some() {
            false
        } else {
            self.value = Some(s);
            true
        }
    }
}

/// Stores freshly loaded settings. A failed load is reported as it is; a
/// second initialization is refused and keeps the first settings.
pub fn init_settings(cell: &mut SettingsCell, loaded: Result<Settings, String>) -> (r: Result<
    (),
    String,
>)
    ensures
        match loaded {
            Err(e) => r == Err::<(), String>(e) && final(cell)@ == old(cell)@,
            Ok(s) => match old(cell)@ {
                None => r is Ok && final(cell)@ == Some(s),
                Some(_) => r matches Err(m) && m@ == "Configurações já inicializadas"@
                    && final(cell)@ == old(cell)@,
            },
        },
{
    match loaded {
        Err(e) => Err(e),
        Ok(s) => {
            if cell.set(s) {
                Ok(())
            } else {
                Err("Configurações já inicializadas".to_owned())
            }
        },
    }
}

/// The stored settings, if they have been initialized.
pub fn get_settings(cell: &SettingsCell) -> (r: Option<&Settings>)
    ensures
        match cell@ {
            Some(s) => r == Some(&s),
            None => r is None,
        },
{
    cell.get()
}

} // verus!
