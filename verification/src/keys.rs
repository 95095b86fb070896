//! Translation key names for the AI screens.

use vstd::prelude::*;

verus! {

pub const TITLE: &'static str = "ai-title";

pub const ENGINES_TITLE: &'static str = "ai-engines-title";

pub const MODEL_LABEL: &'static str = "ai-model-label";

pub const STATUS_STOPPED: &'static str = "ai-status-stopped";

pub const STATUS_STARTING: &'static str = "ai-mistral-status-starting";

pub const BTN_START: &'static str = "ai-start-engine";

pub const BTN_STOP: &'static str = "ai-stop-engine";

pub const BTN_REFRESH: &'static str = "ai-mistral-btn-refresh";

pub const MISTRAL_TITLE: &'static str = "ai-mistral-title";

pub const MISTRAL_DESCRIPTION: &'static str = "ai-mistral-description";

pub const MISTRAL_STATUS_RUNNING: &'static str = "ai-mistral-status-running";

pub const MISTRAL_STATUS_STOPPED: &'static str = "ai-mistral-status-stopped";

pub const MISTRAL_RAM_INFO: &'static str = "ai-mistral-ram-info";

pub const MISTRAL_BINARY_MISSING: &'static str = "ai-mistral-binary-missing";

pub const EDITOR_INTEGRATION_TITLE: &'static str = "ai-editor-integration-title";

pub const ERROR: &'static str = "ai-error";

pub const ERROR_DETAIL: &'static str = "ai-error-detail";

} // verus!
