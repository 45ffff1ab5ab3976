use tracer::device::{capabilities, select_compute_queue, DeviceContext, QueueChoice};
use tracer::error::TracerError;
use vulkano::instance::{Instance, InstanceCreationError, InstanceExtensions, PhysicalDevice};

#[test]
fn no_device_at_all() {
    assert_eq!(select_compute_queue(&vec![]), Err(TracerError::NoDevice));
}

#[test]
fn devices_without_a_compute_queue() {
    assert_eq!(select_compute_queue(&vec![vec![]]), Err(TracerError::NoComputeQueue));
    assert_eq!(select_compute_queue(&vec![vec![false]]), Err(TracerError::NoComputeQueue));
    assert_eq!(
        select_compute_queue(&vec![vec![false, false], vec![], vec![false]]),
        Err(TracerError::NoComputeQueue)
    );
}

#[test]
fn first_compute_family_of_the_first_device() {
    assert_eq!(
        select_compute_queue(&vec![vec![true]]),
        Ok(QueueChoice { device: 0, family: 0 })
    );
    assert_eq!(
        select_compute_queue(&vec![vec![false, true, true]]),
        Ok(QueueChoice { device: 0, family: 1 })
    );
    assert_eq!(
        select_compute_queue(&vec![vec![true, true], vec![true]]),
        Ok(QueueChoice { device: 0, family: 0 })
    );
}

#[test]
fn devices_without_compute_are_passed_over() {
    assert_eq!(
        select_compute_queue(&vec![vec![false], vec![false, true]]),
        Ok(QueueChoice { device: 1, family: 1 })
    );
    assert_eq!(
        select_compute_queue(&vec![vec![], vec![], vec![false, false, true, true], vec![true]]),
        Ok(QueueChoice { device: 2, family: 2 })
    );
}

#[test]
fn the_choice_is_the_first_in_every_small_table() {
    for code in 0u32..4096 {
        let table: Vec<Vec<bool>> = (0..3)
            .map(|d| (0..4).map(|f| code >> (4 * d + f) & 1 == 1).collect())
            .collect();
        let mut expected = Err(TracerError::NoComputeQueue);
        'search: for (d, row) in table.iter().enumerate() {
            for (f, supported) in row.iter().enumerate() {
                if *supported {
                    expected = Ok(QueueChoice { device: d, family: f });
                    break 'search;
                }
            }
        }
        assert_eq!(select_compute_queue(&table), expected);
    }
}

#[test]
fn a_missing_instance_is_reported() {
    let context = DeviceContext::select(Err(InstanceCreationError::InitializationFailed));
    assert!(matches!(context, Err(TracerError::NoInstance)));
    let context = DeviceContext::select(Err(InstanceCreationError::IncompatibleDriver));
    assert!(matches!(context, Err(TracerError::NoInstance)));
}

#[test]
fn init_fails_only_for_want_of_something_to_compute_on() {
    match DeviceContext::init() {
        Ok(_) => {}
        Err(error) => {
            assert!(matches!(
                error,
                TracerError::NoInstance | TracerError::NoDevice | TracerError::NoComputeQueue
            ));
            assert_eq!(error.kind(), tracer::error::ErrorKind::EnvironmentAbsence);
        }
    }
}

#[test]
fn the_table_is_what_the_instance_lists() {
    let instance = match Instance::new(None, &InstanceExtensions::none(), None) {
        Ok(instance) => instance,
        Err(_) => return,
    };
    let listed: Vec<Vec<bool>> = PhysicalDevice::enumerate(&instance)
        .map(|device| device.queue_families().map(|family| family.supports_compute()).collect())
        .collect();
    assert_eq!(capabilities(&instance), listed);
    match DeviceContext::select(Ok(instance)) {
        Ok(context) => {
            assert_eq!(Ok(context.choice()), select_compute_queue(&listed));
            let choice = context.choice();
            let physical = PhysicalDevice::from_index(context.instance(), choice.device).unwrap();
            let family = physical.queue_family_by_id(choice.family as u32).unwrap();
            assert!(family.supports_compute());
        }
        Err(error) => assert_eq!(Err(error), select_compute_queue(&listed)),
    }
}
