//! The settings of the provider, as the process finds them at startup.

use vstd::prelude::*;
use super::client::{OpenAiClient, OpenAiClientView};
use super::text::same_text;

verus! {

/// The model used when none is configured.
pub const DEFAULT_MODEL: &'static str = "gpt-3.5-turbo";

/// The key used in mock mode when none is configured.
pub const MOCK_API_KEY: &'static str = "mock-api-key";

/// Settings of the provider. They are read once and never change.
#[derive(Clone)]
pub struct ProviderConfig {
    pub api_key: String,
    pub model: String,
    pub mock_mode: bool,
}

/// Settings as a mathematical value.
pub struct ProviderConfigView {
    pub api_key: Seq<char>,
    pub model: Seq<char>,
    pub mock_mode: bool,
}

impl View for ProviderConfig {
    type V = ProviderConfigView;

    open spec fn view(&self) -> ProviderConfigView {
        ProviderConfigView { api_key: self.api_key@, model: self.model@, mock_mode: self.mock_mode }
    }
}

/// The text of an optional setting.
pub open spec fn setting_text(setting: Option<String>) -> Option<Seq<char>> {
    match setting {
        Some(text) => Some(text@),
        None => None,
    }
}

/// Mock mode is on exactly when the flag is set to the word `true`.
pub open spec fn mock_flag_on(flag: Option<Seq<char>>) -> bool {
    flag == Some("true"@)
}

/// The settings that the given optional values amount to: an unset model
/// means the default model; an unset key means the mock key in mock mode
/// and the empty key otherwise.
pub open spec fn resolved_settings(
    mock_flag: Option<Seq<char>>,
    api_key: Option<Seq<char>>,
    model: Option<Seq<char>>,
) -> ProviderConfigView {
    let mock_mode = mock_flag_on(mock_flag);
    ProviderConfigView {
        api_key: match api_key {
            Some(key) => key,
            None => if mock_mode {
                MOCK_API_KEY@
            } else {
                Seq::empty()
            },
        },
        model: match model {
            Some(model) => model,
            None => DEFAULT_MODEL@,
        },
        mock_mode,
    }
}

impl ProviderConfig {
    /// Resolves the settings from the values found, each of which may be
    /// missing.
    pub fn from_settings(
        mock_flag: Option<String>,
        api_key: Option<String>,
        model: Option<String>,
    ) -> (config: ProviderConfig)
        ensures
            config@ == resolved_settings(
                setting_text(mock_flag),
                setting_text(api_key),
                setting_text(model),
            ),
    {
        let mock_mode = match &mock_flag {
            Some(flag) => same_text(flag.as_str(), "true"),
            None => false,
        };
        let api_key = match api_key {
            Some(key) => key,
            None => if mock_mode {
                MOCK_API_KEY.to_owned()
            } else {
                String::new()
            },
        };
        let model = match model {
            Some(model) => model,
            None => DEFAULT_MODEL.to_owned(),
        };
        ProviderConfig { api_key, model, mock_mode }
    }

    /// Creates the client for these settings.
    pub fn into_client(self) -> (client: OpenAiClient)
        ensures
            client@ == (OpenAiClientView {
                api_key: self.api_key@,
                model: self.model@,
                mock_mode: self.mock_mode,
            }),
    {
        OpenAiClient::new(self.api_key, self.model, self.mock_mode)
    }
}

} // verus!
