use rclrs::context::{
    init_arguments, Ros, RosContext, RosInitError, RosOptions, RCL_RET_INVALID_ROS_ARGS,
    RCL_RET_OK,
};

fn ready_options() -> RosOptions {
    let mut options = RosOptions::new();
    assert!(options.record_init(RCL_RET_OK));
    options
}

#[test]
fn options_init_and_fini() {
    let mut options = RosOptions::new();
    assert!(!options.is_initialized());
    assert!(!options.record_init(1));
    assert!(!options.is_initialized());
    assert!(options.record_init(RCL_RET_OK));
    assert!(options.is_initialized());
    assert!(options.record_fini(RCL_RET_OK));
    assert!(!options.is_initialized());
}

#[test]
fn fresh_context_is_not_live_and_may_be_finalized() {
    let context = RosContext::default();
    assert!(!context.is_valid());
    assert!(context.may_finalize());
}

#[test]
fn init_then_liveness_check() {
    let options = ready_options();
    let ros = Ros::init(&options, RosContext::default(), RCL_RET_OK).unwrap().unwrap();
    assert!(ros.is_valid());
}

#[test]
fn init_reports_invalid_arguments() {
    let options = ready_options();
    let r = Ros::init(&options, RosContext::default(), RCL_RET_INVALID_ROS_ARGS).unwrap();
    assert_eq!(r.err(), Some(RosInitError::InvalidROSArguments));
}

#[test]
fn init_with_undocumented_code_is_a_fault() {
    let options = ready_options();
    assert!(Ros::init(&options, RosContext::default(), 1).is_none());
}

#[test]
fn failed_init_leaves_context_zero_initialized() {
    let options = ready_options();
    let mut context = RosContext::default();
    assert_eq!(context.record_init(&options, RCL_RET_INVALID_ROS_ARGS), Some(Err(RosInitError::InvalidROSArguments)));
    assert!(!context.is_valid());
    assert!(context.may_finalize());
}

#[test]
fn create_destroy_cycles_finalize_once() {
    for _ in 0..3 {
        let mut options = ready_options();
        let ros = Ros::init(&options, RosContext::default(), RCL_RET_OK).unwrap().unwrap();
        assert!(ros.is_valid());
        let mut context = match ros.shutdown(RCL_RET_OK) {
            Ok(c) => c,
            Err(_) => panic!("shutdown failed"),
        };
        assert!(!context.is_valid());
        assert!(context.may_finalize());
        assert!(context.record_fini(RCL_RET_OK));
        assert!(!context.may_finalize());
        assert!(options.record_fini(RCL_RET_OK));
    }
}

#[test]
fn failed_shutdown_keeps_context_live() {
    let options = ready_options();
    let ros = Ros::init(&options, RosContext::default(), RCL_RET_OK).unwrap().unwrap();
    match ros.shutdown(106) {
        Ok(_) => panic!("shutdown should have failed"),
        Err(c) => {
            assert!(c.is_valid());
            assert!(!c.may_finalize());
        }
    }
}

#[test]
fn init_arguments_drops_those_with_a_zero_byte() {
    let args = vec![
        "prog".to_string(),
        String::from_utf8(vec![65, 0, 66]).unwrap(),
        "--ros-args".to_string(),
        String::new(),
    ];
    let r = init_arguments(&args);
    assert_eq!(r, vec![b"prog\0".to_vec(), b"--ros-args\0".to_vec(), vec![0]]);
}

#[test]
fn init_arguments_of_nothing_is_empty() {
    assert!(init_arguments(&Vec::new()).is_empty());
}
