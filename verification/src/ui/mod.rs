mod controller;

pub use controller::{
    failed_view, form_error, law_form_error_order, law_primary_button_names_its_action, settled_view, spec_primary_button, ButtonLabel, ConnectionController,
    ControllerView, PollAction, PrimaryButton, StatusDetail, StatusMessage, ValidatedPid, WorkerAction,
    WorkerEvent,
};
