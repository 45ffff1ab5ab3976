//! The tracer: a device, its queue, and the three buffers that the kernel is bound to.
use crate::binding::BufferRole;
use crate::buffers::{download, initial_words, upload, zeroed, WordBuffer, WORD_BYTES};
use crate::camera::Camera;
use crate::dispatch::Phase;
use crate::error::TracerError;
use crate::raster::pixel_count;
use crate::scene::{SceneData, SceneModel, NUM_SPHERES};
use std::sync::Arc;
use vstd::prelude::*;
use vulkano::device::{Device, Queue};

verus! {

/// Owns the device, the queue and the three buffers for as long as it lives. The output
/// buffer has one word per pixel, the other two hold the default scene and camera.
pub struct Tracer {
    device: Arc<Device>,
    queue: Arc<Queue>,
    data_buffer: Arc<WordBuffer>,
    scene_buffer: Arc<WordBuffer>,
    cam_buffer: Arc<WordBuffer>,
    width: u32,
    height: u32,
}

impl Tracer {
    /// The width of the raster, in pixels.
    pub closed spec fn width_of(&self) -> u32 {
        self.width
    }

    /// The height of the raster, in pixels.
    pub closed spec fn height_of(&self) -> u32 {
        self.height
    }

    /// The device that the buffers live on.
    pub closed spec fn device_of(&self) -> Device {
        *self.device
    }

    /// The queue that the work is handed to.
    pub closed spec fn queue_of(&self) -> Queue {
        *self.queue
    }

    /// The buffer that is bound for `role`.
    pub closed spec fn buffer_of(&self, role: BufferRole) -> WordBuffer {
        match role {
            BufferRole::Output => *self.data_buffer,
            BufferRole::Scene => *self.scene_buffer,
            BufferRole::Camera => *self.cam_buffer,
        }
    }

    /// What the buffer of each role is made with: one zero word per pixel for the
    /// output, the image of the default scene, the image of the default camera.
    pub open spec fn image_for(&self, role: BufferRole) -> Seq<u32> {
        match role {
            BufferRole::Output => Seq::new(
                (self.width_of() * self.height_of()) as nat,
                |i: int| 0u32,
            ),
            BufferRole::Scene => SceneModel::default_of(
                NUM_SPHERES as nat,
                self.width_of(),
                self.height_of(),
            ).words(),
            BufferRole::Camera => Camera::default_of().words(),
        }
    }

    #[verifier::type_invariant]
    spec fn made_with_images(&self) -> bool {
        &&& self.width * self.height <= usize::MAX
        &&& forall|role: BufferRole| #[trigger]
            initial_words(self.buffer_of(role)) == self.image_for(role)
    }

    /// Allocates the three buffers on `device` for a raster of `width` by `height`: the
    /// output, one zero word per pixel; the default scene; the default camera. A raster
    /// whose pixels take more bytes than the machine can address is a failed allocation
    /// of the output buffer. Whether an allocation succeeds is up to the device; the
    /// first that fails names its role in the error.
    pub fn init(device: Arc<Device>, queue: Arc<Queue>, width: u32, height: u32) -> (made: Result<
        Tracer,
        TracerError,
    >)
        ensures
            width * height * WORD_BYTES > usize::MAX ==> made is Err && made->Err_0
                == TracerError::BufferAllocation(BufferRole::Output),
            made matches Ok(tracer) ==> {
                &&& tracer.device_of() == *device
                &&& tracer.queue_of() == *queue
                &&& tracer.width_of() == width
                &&& tracer.height_of() == height
                &&& forall|role: BufferRole| #[trigger]
                    initial_words(tracer.buffer_of(role)) == tracer.image_for(role)
            },
            made matches Err(error) ==> error is BufferAllocation,
    {
        let pixels: u64 = pixel_count(width, height);
        if pixels > (usize::MAX / WORD_BYTES) as u64 {
            return Err(TracerError::BufferAllocation(BufferRole::Output));
        }
        let blank: Vec<u32> = zeroed(pixels as usize);
        let data_buffer = match upload(&device, &blank, BufferRole::Output) {
            Ok(buffer) => buffer,
            Err(error) => {
                return Err(error);
            },
        };
        let scene: SceneData = SceneData::default_scene(width, height);
        let scene_words: Vec<u32> = scene.to_words().unwrap();
        let scene_buffer = match upload(&device, &scene_words, BufferRole::Scene) {
            Ok(buffer) => buffer,
            Err(error) => {
                return Err(error);
            },
        };
        let camera: Camera = Camera::default_camera();
        let camera_words: Vec<u32> = camera.to_words().unwrap();
        let cam_buffer = match upload(&device, &camera_words, BufferRole::Camera) {
            Ok(buffer) => buffer,
            Err(error) => {
                return Err(error);
            },
        };
        proof {
            assert(blank@ =~= Seq::new((width * height) as nat, |i: int| 0u32));
        }
        Ok(Tracer { device, queue, data_buffer, scene_buffer, cam_buffer, width, height })
    }

    /// The last stage of a run: reads the pixels back, which is in order only once the
    /// fence has been signalled. In any other phase the result is `NotSignaled`. In
    /// phase `Signaled` it is one word per pixel, in row-major order as the kernel wrote
    /// them, or `BufferMap` where the buffer cannot be read.
    pub fn compute(&self, phase: Phase) -> (pixels: Result<Vec<u32>, TracerError>)
        ensures
            phase != Phase::Signaled ==> pixels == Err::<Vec<u32>, TracerError>(
                TracerError::NotSignaled,
            ),
            pixels matches Ok(words) ==> words@.len() == self.width_of() * self.height_of(),
            pixels matches Err(error) ==> error == (if phase == Phase::Signaled {
                TracerError::BufferMap
            } else {
                TracerError::NotSignaled
            }),
    {
        proof {
            use_type_invariant(self);
            assert(initial_words(self.buffer_of(BufferRole::Output)) == self.image_for(
                BufferRole::Output,
            ));
        }
        match phase {
            Phase::Signaled => {
                let expected: u64 = pixel_count(self.width, self.height);
                download(&self.data_buffer, expected as usize)
            },
            _ => Err(TracerError::NotSignaled),
        }
    }

    /// The device that the buffers live on.
    pub fn device(&self) -> (device: &Arc<Device>)
        ensures
            **device == self.device_of(),
    {
        &self.device
    }

    /// The queue that the work is handed to.
    pub fn queue(&self) -> (queue: &Arc<Queue>)
        ensures
            **queue == self.queue_of(),
    {
        &self.queue
    }

    /// The buffer to bind for `role`, made with the words of that role.
    pub fn buffer(&self, role: BufferRole) -> (buffer: &Arc<WordBuffer>)
        ensures
            **buffer == self.buffer_of(role),
            initial_words(**buffer) == self.image_for(role),
    {
        proof {
            use_type_invariant(self);
            assert(initial_words(self.buffer_of(role)) == self.image_for(role));
        }
        match role {
            BufferRole::Output => &self.data_buffer,
            BufferRole::Scene => &self.scene_buffer,
            BufferRole::Camera => &self.cam_buffer,
        }
    }

    /// The width of the raster, in pixels.
    pub fn width(&self) -> (width: u32)
        ensures
            width == self.width_of(),
    {
        self.width
    }

    /// The height of the raster, in pixels.
    pub fn height(&self) -> (height: u32)
        ensures
            height == self.height_of(),
    {
        self.height
    }
}

} // verus!
