use learngl::shader::{
    build_error_message, build_status, info_log_buffer_len, read_error_message,
    shader_stage_label, status_query, ShaderStage, StatusQuery,
};

#[test]
fn the_program_is_checked_for_its_link_status() {
    assert_eq!(status_query(ShaderStage::Program), StatusQuery::Link);
}

#[test]
fn shaders_are_checked_for_their_compile_status() {
    assert_eq!(status_query(ShaderStage::Vertex), StatusQuery::Compile);
    assert_eq!(status_query(ShaderStage::Fragment), StatusQuery::Compile);
}

#[test]
fn stage_labels_match_the_report_convention() {
    assert_eq!(shader_stage_label(ShaderStage::Vertex), "VERTEX");
    assert_eq!(shader_stage_label(ShaderStage::Fragment), "FRAGMENT");
    assert_eq!(shader_stage_label(ShaderStage::Program), "PROGRAM");
}

#[test]
fn a_failed_compile_reports_the_stage_and_the_log() {
    let message = build_error_message(ShaderStage::Vertex, "0:1: syntax error");
    assert_eq!(
        message,
        "ERROR::SHADER_COMPILATION_ERROR of type: VERTEX\n0:1: syntax error\n -- --------------------------------------------------- -- "
    );
}

#[test]
fn a_failed_link_reports_the_program_and_the_log() {
    let message = build_error_message(ShaderStage::Program, "undefined symbol");
    assert_eq!(
        message,
        "ERROR::PROGRAM_LINKING_ERROR of type: PROGRAM\nundefined symbol\n -- --------------------------------------------------- -- "
    );
}

#[test]
fn a_nonzero_status_means_the_stage_built() {
    assert_eq!(build_status(ShaderStage::Fragment, 1, ""), Ok(()));
    assert_eq!(build_status(ShaderStage::Program, -1, ""), Ok(()));
}

#[test]
fn a_zero_status_carries_the_error_report() {
    let r = build_status(ShaderStage::Fragment, 0, "bad");
    let message = r.expect_err("status zero fails");
    assert_eq!(
        message,
        "ERROR::SHADER_COMPILATION_ERROR of type: FRAGMENT\nbad\n -- --------------------------------------------------- -- "
    );
}

#[test]
fn an_unreadable_source_file_is_reported_with_its_reason() {
    assert_eq!(
        read_error_message("No such file or directory (os error 2)"),
        "ERROR::SHADER::FILE_NOT_SUCCESFULLY_READ: No such file or directory (os error 2)"
    );
}

#[test]
fn the_info_log_buffer_leaves_room_for_the_nul() {
    assert_eq!(info_log_buffer_len(0), 1);
    assert_eq!(info_log_buffer_len(511), 512);
    assert_eq!(info_log_buffer_len(i32::MAX), i32::MAX as usize + 1);
}
