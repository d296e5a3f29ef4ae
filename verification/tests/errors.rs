use dsdm::error::DSDMError;

#[test]
fn messages_of_the_failures() {
    let detail = || "detail".to_string();
    assert_eq!(DSDMError::Io(detail()).message(), "IO Error: detail");
    assert_eq!(DSDMError::TemplateError(detail()).message(), "Template Error: detail");
    assert_eq!(DSDMError::SerdeError(detail()).message(), "Serde Error: detail");
    assert_eq!(DSDMError::HomeError.message(), "Failed to calculate home directory.");
    assert_eq!(DSDMError::DirError(detail()).message(), "Directory Error: detail");
    assert_eq!(DSDMError::WalkDir(detail()).message(), "Walkdir Error: detail");
    assert_eq!(DSDMError::FSExtra(detail()).message(), "Error copying files: detail");
    assert_eq!(DSDMError::StripPrefix(detail()).message(), "Strip Prefix Error: detail");
    assert_eq!(DSDMError::ModuleExists.message(), "Module already exists.");
    assert_eq!(DSDMError::NotExists.message(), "Module does not exist.");
    assert_eq!(DSDMError::QuestionError.message(), "Error parsing prompt.");
    assert_eq!(DSDMError::InvalidKey.message(), "Failed to convert key to string.");
    assert_eq!(DSDMError::InvalidValue.message(), "Failed to parse template value.");
}
