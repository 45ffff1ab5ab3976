//! The choice of what to compute on: the first device that has a queue family for
//! compute operations, and the first such family of it.
//!
//! The logical device and its queue are created by the caller, from the instance and
//! the choice made here.
use crate::error::TracerError;
use std::sync::Arc;
use vstd::prelude::*;
use vulkano::instance::{Instance, InstanceCreationError, InstanceExtensions, PhysicalDevice};

verus! {

/// `vulkano::instance::Instance`, opaque here.
#[verifier::external_type_specification]
#[verifier::external_body]
pub struct ExInstance(Instance);

/// `vulkano::instance::InstanceCreationError`, opaque here.
#[verifier::external_type_specification]
#[verifier::external_body]
pub struct ExInstanceCreationError(InstanceCreationError);

/// What an instance lists: for each physical device, in the order of enumeration, and
/// for each of its queue families, in the order of their ids, whether the family
/// supports compute operations. An instance reads this once, when it is created.
pub uninterp spec fn compute_support(instance: Instance) -> Seq<Seq<bool>>;

/// `Instance::new` without application info, extensions or layers. Whether an instance
/// can be had depends on the machine, so nothing is claimed of the result.
#[verifier::external_body]
fn create_instance() -> (created: Result<Arc<Instance>, InstanceCreationError>) {
    Instance::new(None, &InstanceExtensions::none(), None)
}

/// The length of `PhysicalDevice::enumerate`: the number of devices that the instance
/// lists.
#[verifier::external_body]
fn device_count(instance: &Arc<Instance>) -> (count: usize)
    ensures
        count == compute_support(**instance).len(),
{
    PhysicalDevice::enumerate(instance).len()
}

/// The length of `PhysicalDevice::queue_families` for the device at `device`: the number
/// of its queue families, which Vulkan counts in 32 bits.
#[verifier::external_body]
fn family_count(instance: &Arc<Instance>, device: usize) -> (count: u32)
    requires
        device < compute_support(**instance).len(),
    ensures
        count == compute_support(**instance)[device as int].len(),
{
    PhysicalDevice::from_index(instance, device).unwrap().queue_families().len() as u32
}

/// `QueueFamily::supports_compute` for family `family` of the device at `device`.
#[verifier::external_body]
fn family_supports_compute(instance: &Arc<Instance>, device: usize, family: u32) -> (supported:
    bool)
    requires
        device < compute_support(**instance).len(),
        family < compute_support(**instance)[device as int].len(),
    ensures
        supported == compute_support(**instance)[device as int][family as int],
{
    PhysicalDevice::from_index(instance, device).unwrap().queue_family_by_id(
        family,
    ).unwrap().supports_compute()
}

/// What the instance behind a handle lists.
pub open spec fn listed_by(instance: &Arc<Instance>) -> Seq<Seq<bool>> {
    compute_support(**instance)
}

/// Everything that the instance lists, as a table: row `d` holds, for device `d`,
/// whether each of its queue families supports compute operations.
pub fn capabilities(instance: &Arc<Instance>) -> (table: Vec<Vec<bool>>)
    ensures
        table.deep_view() == compute_support(**instance),
{
    let devices: usize = device_count(instance);
    let mut table: Vec<Vec<bool>> = Vec::new();
    let mut device: usize = 0;
    while device < devices
        invariant
            device <= devices,
            devices == listed_by(instance).len(),
            table@.len() == device,
            forall|d: int| 0 <= d < device ==> (#[trigger] table@[d])@ == listed_by(instance)[d],
        decreases devices - device,
    {
        let families: u32 = family_count(instance, device);
        let mut row: Vec<bool> = Vec::new();
        let mut family: u32 = 0;
        while family < families
            invariant
                family <= families,
                device < listed_by(instance).len(),
                families == listed_by(instance)[device as int].len(),
                    row@.len() == family,
                forall|f: int| 0 <= f < family ==> #[trigger] row@[f] == listed_by(instance)[device as int][f],
            decreases families - family,
        {
            row.push(family_supports_compute(instance, device, family));
            family = family + 1;
        }
        proof {
            assert(row@ =~= listed_by(instance)[device as int]);
        }
        table.push(row);
        device = device + 1;
    }
    proof {
        assert forall|d: int| 0 <= d < table@.len() implies #[trigger] table.deep_view()[d]
            == listed_by(instance)[d] by {
            assert(table@[d].deep_view() =~= table@[d]@);
        }
        assert(table.deep_view() =~= listed_by(instance));
    }
    table
}

/// A physical device and one of its queue families, by their indices.
#[derive(Clone, Copy, Debug, PartialEq, Eq, Structural)]
pub struct QueueChoice {
    pub device: usize,
    pub family: usize,
}

/// Whether family `family` of device `device` exists and supports compute operations.
pub open spec fn supports(table: Seq<Seq<bool>>, device: int, family: int) -> bool {
    &&& 0 <= device < table.len()
    &&& 0 <= family < table[device].len()
    &&& table[device][family]
}

/// Whether `(device, family)` is the first choice: the family supports compute
/// operations, no family of an earlier device does, and no earlier family of this device
/// does.
pub open spec fn is_first_choice(table: Seq<Seq<bool>>, device: int, family: int) -> bool {
    &&& supports(table, device, family)
    &&& forall|d: int, f: int| 0 <= d < device ==> !#[trigger] supports(table, d, f)
    &&& forall|f: int| 0 <= f < family ==> !#[trigger] supports(table, device, f)
}

/// What is chosen from `table`: the first choice where there is one; else `NoDevice`
/// for an empty table and `NoComputeQueue` for any other.
pub open spec fn choice_matches(
    table: Seq<Seq<bool>>,
    choice: Result<QueueChoice, TracerError>,
) -> bool {
    match choice {
        Ok(chosen) => is_first_choice(table, chosen.device as int, chosen.family as int),
        Err(error) => {
            &&& forall|d: int, f: int| !#[trigger] supports(table, d, f)
            &&& error == if table.len() == 0 {
                TracerError::NoDevice
            } else {
                TracerError::NoComputeQueue
            }
        },
    }
}

/// There is one first choice at most.
pub proof fn lemma_first_choice_unique(table: Seq<Seq<bool>>, a: (int, int), b: (int, int))
    requires
        is_first_choice(table, a.0, a.1),
        is_first_choice(table, b.0, b.1),
    ensures
        a == b,
{
    if a.0 < b.0 {
        assert(!supports(table, a.0, a.1));
    } else if b.0 < a.0 {
        assert(!supports(table, b.0, b.1));
    } else if a.1 < b.1 {
        assert(!supports(table, b.0, a.1));
    } else if b.1 < a.1 {
        assert(!supports(table, a.0, b.1));
    }
}

/// The first device of `table` with a queue family for compute operations, and the
/// first such family of it.
pub fn select_compute_queue(table: &Vec<Vec<bool>>) -> (choice: Result<QueueChoice, TracerError>)
    ensures
        choice_matches(table.deep_view(), choice),
{
    let ghost model = table.deep_view();
    let mut device: usize = 0;
    while device < table.len()
        invariant
            device <= table.len(),
            model == table.deep_view(),
            forall|d: int, f: int| 0 <= d < device ==> !#[trigger] supports(model, d, f),
        decreases table.len() - device,
    {
        let families: &Vec<bool> = &table[device];
        let mut family: usize = 0;
        proof {
            assert(model[device as int] =~= families@);
        }
        while family < families.len()
            invariant
                device < table.len(),
                family <= families.len(),
                model == table.deep_view(),
                *families == table@[device as int],
                model[device as int] == families@,
                forall|d: int, f: int| 0 <= d < device ==> !#[trigger] supports(model, d, f),
                forall|f: int| 0 <= f < family ==> !#[trigger] supports(model, device as int, f),
            decreases families.len() - family,
        {
            if families[family] {
                return Ok(QueueChoice { device, family });
            }
            family = family + 1;
        }
        device = device + 1;
    }
    if table.len() == 0 {
        Err(TracerError::NoDevice)
    } else {
        Err(TracerError::NoComputeQueue)
    }
}

/// An instance and the queue family chosen on it.
pub struct DeviceContext {
    instance: Arc<Instance>,
    choice: QueueChoice,
}

/// The choice that a context holds, or the error in its place.
pub open spec fn chosen_by(context: Result<DeviceContext, TracerError>) -> Result<
    QueueChoice,
    TracerError,
> {
    match context {
        Ok(made) => Ok(made.choice_of()),
        Err(error) => Err(error),
    }
}

impl DeviceContext {
    /// The instance.
    pub closed spec fn instance_of(&self) -> Instance {
        *self.instance
    }

    /// The choice.
    pub closed spec fn choice_of(&self) -> QueueChoice {
        self.choice
    }

    #[verifier::type_invariant]
    spec fn chosen_first(&self) -> bool {
        is_first_choice(
            compute_support(*self.instance),
            self.choice.device as int,
            self.choice.family as int,
        )
    }

    /// The context for the outcome of creating an instance: `NoInstance` where there is
    /// none; else the first choice among what the instance lists, or the error for its
    /// absence.
    pub fn select(created: Result<Arc<Instance>, InstanceCreationError>) -> (context: Result<
        DeviceContext,
        TracerError,
    >)
        ensures
            match created {
                Err(_) => context is Err && context->Err_0 == TracerError::NoInstance,
                Ok(instance) => {
                    &&& choice_matches(compute_support(*instance), chosen_by(context))
                    &&& context is Ok ==> context->Ok_0.instance_of() == *instance
                },
            },
    {
        match created {
            Err(_) => Err(TracerError::NoInstance),
            Ok(instance) => {
                let table = capabilities(&instance);
                match select_compute_queue(&table) {
                    Ok(choice) => Ok(DeviceContext { instance, choice }),
                    Err(error) => Err(error),
                }
            },
        }
    }

    /// Creates an instance and chooses on it. Whether there is an instance, a device or
    /// a queue family for compute operations depends on the machine; where there is, the
    /// choice is the first one.
    pub fn init() -> (context: Result<DeviceContext, TracerError>)
        ensures
            context matches Ok(made) ==> is_first_choice(
                compute_support(made.instance_of()),
                made.choice_of().device as int,
                made.choice_of().family as int,
            ),
            context matches Err(error) ==> error == TracerError::NoInstance || error
                == TracerError::NoDevice || error == TracerError::NoComputeQueue,
    {
        DeviceContext::select(create_instance())
    }

    /// The instance.
    pub fn instance(&self) -> (instance: &Arc<Instance>)
        ensures
            **instance == self.instance_of(),
    {
        &self.instance
    }

    /// The chosen device and queue family: the first choice among what the instance
    /// lists.
    pub fn choice(&self) -> (choice: QueueChoice)
        ensures
            choice == self.choice_of(),
            is_first_choice(
                compute_support(self.instance_of()),
                choice.device as int,
                choice.family as int,
            ),
    {
        proof {
            use_type_invariant(self);
        }
        self.choice
    }
}

} // verus!
