use lcms2::{
    channels_chain, check_clut, check_icc_data, check_matrix, check_parametric, color_space_or_default, eval_buffers_fit,
    info_wchars, min_parameters, saved_profile, saved_size, tabulated_len, Error, SIG_1COLOR_DATA,
};

#[test]
fn parametric_curves_need_enough_parameters() {
    assert_eq!(Err(Error::MissingData), check_parametric(7, 1));
    assert_eq!(Ok(()), check_parametric(7, 5));
    assert_eq!(Ok(()), check_parametric(1, 1));
    assert_eq!(Err(Error::MissingData), check_parametric(1, 0));
    assert_eq!(Err(Error::MissingData), check_parametric(-5, 6));
    assert_eq!(Ok(()), check_parametric(-5, 7));
    assert_eq!(Ok(()), check_parametric(108, 1));
    assert_eq!(Err(Error::MissingData), check_parametric(109, 9));
    assert_eq!(10, min_parameters(i16::MIN));
    assert_eq!([1, 3, 4, 5, 7, 4, 5, 6], [1, 2, 3, 4, 5, 6, 7, 8].map(min_parameters));
}

#[test]
fn tabulated_curve_length_limit() {
    assert_eq!(Some(256), tabulated_len(256));
    assert_eq!(Some(0), tabulated_len(0));
    assert_eq!(None, tabulated_len(i32::MAX as usize));
}

#[test]
fn matrix_stage_buffers() {
    assert_eq!(Ok(()), check_matrix(9, 3, 3, None));
    assert_eq!(Err(Error::MissingData), check_matrix(8, 3, 3, None));
    assert_eq!(Ok(()), check_matrix(9, 3, 3, Some(3)));
    assert_eq!(Err(Error::MissingData), check_matrix(9, 3, 3, Some(2)));
    assert_eq!(Err(Error::MissingData), check_matrix(usize::MAX, usize::MAX, 2, None));
}

#[test]
fn clut_stage_buffers() {
    // 3 inputs on a 17-point grid, 3 outputs
    assert_eq!(Ok(()), check_clut(17, 3, 3, 17 * 17 * 17 * 3));
    assert_eq!(Err(Error::MissingData), check_clut(17, 3, 3, 17 * 17 * 17 * 3 - 1));
    assert_eq!(Ok(()), check_clut(2, 0, 4, 4));
    assert_eq!(Err(Error::MissingData), check_clut(2, 0, 4, 3));
    assert_eq!(Ok(()), check_clut(0, 3, 4, 0));
    assert_eq!(Err(Error::MissingData), check_clut(255, 15, 15, usize::MAX));
}

#[test]
fn pipeline_channel_mismatch() {
    assert!(!channels_chain(3, 4));
    assert!(channels_chain(3, 3));
    assert!(eval_buffers_fit(4, 3, 4, 3));
    assert!(!eval_buffers_fit(4, 3, 3, 3));
    assert!(!eval_buffers_fit(4, 3, 4, 4));
}

#[test]
fn profile_buffer_decisions() {
    assert_eq!(Err(Error::MissingData), check_icc_data(0));
    assert_eq!(Ok(()), check_icc_data(1));
    assert_eq!(Err(Error::ObjectCreationError), saved_size(false, 300));
    assert_eq!(Err(Error::ObjectCreationError), saved_size(true, 0));
    assert_eq!(Ok(300), saved_size(true, 300));
    assert_eq!(Err(Error::ObjectCreationError), saved_profile(false, vec![1, 2]));
    assert_eq!(Ok(vec![1, 2]), saved_profile(true, vec![1, 2]));
    assert_eq!(None, info_wchars(0, 4));
    assert_eq!(Some(5), info_wchars(20, 4));
    assert_eq!(SIG_1COLOR_DATA, color_space_or_default(0));
    assert_eq!(0x52474220, color_space_or_default(0x52474220));
    assert_eq!(u32::from_be_bytes(*b"1CLR"), SIG_1COLOR_DATA);
}

#[test]
fn error_messages() {
    assert_eq!("Requested data is empty or does not exist.", Error::MissingData.message());
    assert!(Error::ObjectCreationError.message().starts_with("Could not create the object."));
    assert!(Error::InvalidString.message().starts_with("String is not valid."));
}
