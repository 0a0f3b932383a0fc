//! The scene as the fragment shader reads it from its uniform block.
//!
//! A uniform block is a run of 32-bit words. Numbers with a fraction are held
//! as the bits of their IEEE 754 single-precision encoding, counts as they
//! are. Every record starts on a multiple of four words, so a record is filled
//! up with words of zero where its fields end earlier.
use crate::vec3::Vec3;
use vstd::prelude::*;

verus! {

/// How the surface of a sphere scatters light.
#[derive(Clone, Copy, Debug, PartialEq, Eq, Structural)]
pub enum Material {
    Lambertian,
    Metal,
    Glass,
}

impl Material {
    /// The number by which the shader knows the material.
    pub open spec fn tag(self) -> u32 {
        match self {
            Material::Lambertian => 0,
            Material::Metal => 1,
            Material::Glass => 2,
        }
    }

    /// The number by which the shader knows the material.
    pub fn code(&self) -> (code: u32)
        ensures
            code == self.tag(),
    {
        match self {
            Material::Lambertian => 0,
            Material::Metal => 1,
            Material::Glass => 2,
        }
    }
}

/// A sphere of the world.
#[derive(Clone, Copy, Debug)]
pub struct Sphere {
    /// Centre (x, y, z) and radius.
    pub p: [u32; 4],
    /// Colour (red, green, blue) and the material's parameter: the fuzz of a
    /// metal, the refraction index of a glass.
    pub mat_p: [u32; 4],
    pub mat: Material,
}

/// Number of words that a sphere takes up in the block.
pub const SPHERE_WORDS: usize = 12;

/// Number of words that the camera takes up in the block.
pub const CAMERA_WORDS: usize = 20;

/// Number of spheres in the world.
pub const WORLD_SIZE: usize = 5;

/// Number of words in the block of a scene.
pub const SCENE_WORDS: usize = 84;

/// Appends the four words of `part` to `out`.
fn push_four(out: &mut Vec<u32>, part: &[u32; 4])
    ensures
        final(out)@ == old(out)@ + part@,
{
    out.push(part[0]);
    out.push(part[1]);
    out.push(part[2]);
    out.push(part[3]);
    assert(out@ =~= old(out)@ + part@);
}

impl Sphere {
    /// The words of the sphere: centre and radius, colour and parameter, the
    /// material's number, and three words of padding.
    pub open spec fn layout(self) -> Seq<u32> {
        self.p@ + self.mat_p@ + seq![self.mat.tag(), 0u32, 0u32, 0u32]
    }

    /// The sphere as the shader reads it.
    pub fn words(&self) -> (words: Vec<u32>)
        ensures
            words@ == self.layout(),
            words@.len() == SPHERE_WORDS,
    {
        let mut words: Vec<u32> = Vec::new();
        push_four(&mut words, &self.p);
        push_four(&mut words, &self.mat_p);
        words.push(self.mat.code());
        words.push(0);
        words.push(0);
        words.push(0);
        assert(words@ =~= self.layout());
        words
    }
}

/// The rays through the picture's pixels, and how they are traced.
#[derive(Clone, Copy, Debug)]
pub struct Camera {
    /// Where every ray starts.
    pub origin: [u32; 4],
    /// Centre of the pixel in the upper left corner.
    pub p00: [u32; 4],
    /// Step from a pixel to its right neighbour.
    pub du: [u32; 4],
    /// Step from a pixel to the one below it.
    pub dv: [u32; 4],
    pub width: u32,
    pub height: u32,
    /// Rays traced per pixel.
    pub sample_size: u32,
    /// Reflections after which a ray is given up.
    pub max_bounces: u32,
}

impl Camera {
    /// The words of the camera: origin, first pixel and the two steps, each
    /// on four words, then width, height, sample size and bounce limit.
    pub open spec fn layout(self) -> Seq<u32> {
        self.origin@ + self.p00@ + self.du@ + self.dv@ + seq![
            self.width,
            self.height,
            self.sample_size,
            self.max_bounces,
        ]
    }

    /// The camera as the shader reads it.
    pub fn words(&self) -> (words: Vec<u32>)
        ensures
            words@ == self.layout(),
            words@.len() == CAMERA_WORDS,
    {
        let mut words: Vec<u32> = Vec::new();
        push_four(&mut words, &self.origin);
        push_four(&mut words, &self.p00);
        push_four(&mut words, &self.du);
        push_four(&mut words, &self.dv);
        words.push(self.width);
        words.push(self.height);
        words.push(self.sample_size);
        words.push(self.max_bounces);
        assert(words@ =~= self.layout());
        words
    }

    /// A camera for a picture of `img_width` by `img_height` pixels, whose
    /// rays start at `origin` and pass through the pixel centres
    /// `pixel00 + i * du + j * dv`.
    pub fn new(
        img_width: u32,
        img_height: u32,
        origin: Vec3,
        pixel00: Vec3,
        du: Vec3,
        dv: Vec3,
        sample_size: u32,
        max_bounces: u32,
    ) -> (cam: Camera)
        ensures
            cam.origin@ == origin.gl_words(),
            cam.p00@ == pixel00.gl_words(),
            cam.du@ == du.gl_words(),
            cam.dv@ == dv.gl_words(),
            cam.width == img_width,
            cam.height == img_height,
            cam.sample_size == sample_size,
            cam.max_bounces == max_bounces,
    {
        Camera {
            width: img_width,
            height: img_height,
            origin: origin.to_gl(),
            p00: pixel00.to_gl(),
            du: du.to_gl(),
            dv: dv.to_gl(),
            sample_size,
            max_bounces,
        }
    }
}

/// From where and how a camera looks, before its rays are worked out.
#[derive(Clone, Copy, Debug, PartialEq, Eq, Structural)]
pub struct CameraSetup {
    pub img_width: u32,
    pub img_height: u32,
    /// Where the camera stands.
    pub look_from: Vec3,
    /// The point in the middle of the picture.
    pub look_at: Vec3,
    /// The direction that is up in the picture.
    pub vup: Vec3,
    /// Vertical field of view in degrees, as the bits of its encoding.
    pub vfov: u32,
    /// Rays traced per pixel.
    pub sample_size: u32,
    /// Reflections after which a ray is given up.
    pub max_bounces: u32,
}

/// The setup of the demo's camera: a picture of 1600 by 900 pixels, seen
/// from (-2, 2, 1) towards (0, 0, -1) with (0, 1, 0) pointing up, 60 degrees
/// high, with 100 rays per pixel and 50 reflections at most.
pub open spec fn demo_setup() -> CameraSetup {
    CameraSetup {
        img_width: 1600,
        img_height: 900,
        look_from: Vec3 { x: 0xC000_0000, y: 0x4000_0000, z: 0x3F80_0000 },
        look_at: Vec3 { x: 0x0000_0000, y: 0x0000_0000, z: 0xBF80_0000 },
        vup: Vec3 { x: 0x0000_0000, y: 0x3F80_0000, z: 0x0000_0000 },
        vfov: 0x4270_0000,
        sample_size: 100,
        max_bounces: 50,
    }
}

impl CameraSetup {
    /// The setup of the demo's camera.
    pub fn demo() -> (setup: CameraSetup)
        ensures
            setup == demo_setup(),
    {
        CameraSetup {
            img_width: 1600,
            img_height: 900,
            look_from: Vec3::new(0xC000_0000, 0x4000_0000, 0x3F80_0000),
            look_at: Vec3::new(0x0000_0000, 0x0000_0000, 0xBF80_0000),
            vup: Vec3::new(0x0000_0000, 0x3F80_0000, 0x0000_0000),
            vfov: 0x4270_0000,
            sample_size: 100,
            max_bounces: 50,
        }
    }
}

/// A camera and the world it looks at.
#[derive(Clone, Copy, Debug)]
pub struct Scene {
    pub cam: Camera,
    pub world: [Sphere; 5],
    /// Number of spheres of `world` that the shader looks at.
    pub world_size: u32,
}

/// The five spheres of the world: the ground, a matt ball in the middle, a
/// large and a small glass ball to its left, a metal ball to its right.
pub open spec fn world() -> Seq<Sphere> {
    seq![
        Sphere {
            p: [0x0000_0000u32, 0xC2C9_0000u32, 0xBF80_0000u32, 0x42C8_0000u32],
            mat_p: [0x3F4C_CCCDu32, 0x3F4C_CCCDu32, 0x0000_0000u32, 0x0000_0000u32],
            mat: Material::Lambertian,
        },
        Sphere {
            p: [0x0000_0000u32, 0x0000_0000u32, 0xBF80_0000u32, 0x3F00_0000u32],
            mat_p: [0x3DCC_CCCDu32, 0x3E4C_CCCDu32, 0x3F00_0000u32, 0x0000_0000u32],
            mat: Material::Lambertian,
        },
        Sphere {
            p: [0xBF80_0000u32, 0x0000_0000u32, 0xBF80_0000u32, 0x3F00_0000u32],
            mat_p: [0x0000_0000u32, 0x0000_0000u32, 0x0000_0000u32, 0x3FC0_0000u32],
            mat: Material::Glass,
        },
        Sphere {
            p: [0xBFA6_6666u32, 0x3F33_3333u32, 0x0000_0000u32, 0x3DCC_CCCDu32],
            mat_p: [0x0000_0000u32, 0x0000_0000u32, 0x0000_0000u32, 0x3FC0_0000u32],
            mat: Material::Glass,
        },
        Sphere {
            p: [0x3F80_0000u32, 0x0000_0000u32, 0xBF80_0000u32, 0x3F00_0000u32],
            mat_p: [0x3F4C_CCCDu32, 0x3F19_999Au32, 0x3E4C_CCCDu32, 0x3DCC_CCCDu32],
            mat: Material::Metal,
        },
    ]
}

impl Scene {
    /// The words of the scene: the camera, the five spheres one after the
    /// other, the number of spheres, and three words of padding.
    pub open spec fn layout(self) -> Seq<u32> {
        self.cam.layout() + self.world[0].layout() + self.world[1].layout()
            + self.world[2].layout() + self.world[3].layout() + self.world[4].layout() + seq![
            self.world_size,
            0u32,
            0u32,
            0u32,
        ]
    }

    /// The scene as the shader reads it: the content of its uniform block.
    pub fn words(&self) -> (words: Vec<u32>)
        ensures
            words@ == self.layout(),
            words@.len() == SCENE_WORDS,
    {
        let mut words = self.cam.words();
        let mut i: usize = 0;
        while i < 5
            invariant
                i <= 5,
                words@ == self.layout().take(CAMERA_WORDS + i * SPHERE_WORDS),
                self.layout().len() == SCENE_WORDS,
            decreases 5 - i,
        {
            let mut part = self.world[i].words();
            words.append(&mut part);
            i = i + 1;
        }
        words.push(self.world_size);
        words.push(0);
        words.push(0);
        words.push(0);
        assert(words@ =~= self.layout());
        words
    }

    /// The scene of the demo: its five spheres, seen by its camera.
    ///
    /// The camera is that of [`demo_setup`]: it stands at (-2, 2, 1) and
    /// takes a picture of 1600 by 900 pixels with 100 rays per pixel and 50
    /// reflections at most. The rays follow from the setup by arithmetic on
    /// numbers with a fraction, which is the caller's: `pixel00` is the
    /// centre of the pixel in the upper left corner, `du` and `dv` are the
    /// steps to the next pixel to the right and below.
    pub fn new(pixel00: Vec3, du: Vec3, dv: Vec3) -> (scene: Scene)
        ensures
            scene.cam.width == 1600,
            scene.cam.height == 900,
            scene.cam.sample_size == 100,
            scene.cam.max_bounces == 50,
            scene.cam.origin@ == seq![0xC000_0000u32, 0x4000_0000u32, 0x3F80_0000u32, 0u32],
            scene.cam.width == demo_setup().img_width,
            scene.cam.height == demo_setup().img_height,
            scene.cam.sample_size == demo_setup().sample_size,
            scene.cam.max_bounces == demo_setup().max_bounces,
            scene.cam.origin@ == demo_setup().look_from.gl_words(),
            scene.cam.p00@ == pixel00.gl_words(),
            scene.cam.du@ == du.gl_words(),
            scene.cam.dv@ == dv.gl_words(),
            scene.world_size == 5,
            scene.world@ == world(),
    {
        let setup = CameraSetup::demo();
        let cam = Camera::new(
            setup.img_width,
            setup.img_height,
            setup.look_from,
            pixel00,
            du,
            dv,
            setup.sample_size,
            setup.max_bounces,
        );
        Scene {
            cam,
            world: [
                Sphere {
                    p: [0x0000_0000, 0xC2C9_0000, 0xBF80_0000, 0x42C8_0000],
                    mat_p: [0x3F4C_CCCD, 0x3F4C_CCCD, 0x0000_0000, 0x0000_0000],
                    mat: Material::Lambertian,
                },
                Sphere {
                    p: [0x0000_0000, 0x0000_0000, 0xBF80_0000, 0x3F00_0000],
                    mat_p: [0x3DCC_CCCD, 0x3E4C_CCCD, 0x3F00_0000, 0x0000_0000],
                    mat: Material::Lambertian,
                },
                Sphere {
                    p: [0xBF80_0000, 0x0000_0000, 0xBF80_0000, 0x3F00_0000],
                    mat_p: [0x0000_0000, 0x0000_0000, 0x0000_0000, 0x3FC0_0000],
                    mat: Material::Glass,
                },
                Sphere {
                    p: [0xBFA6_6666, 0x3F33_3333, 0x0000_0000, 0x3DCC_CCCD],
                    mat_p: [0x0000_0000, 0x0000_0000, 0x0000_0000, 0x3FC0_0000],
                    mat: Material::Glass,
                },
                Sphere {
                    p: [0x3F80_0000, 0x0000_0000, 0xBF80_0000, 0x3F00_0000],
                    mat_p: [0x3F4C_CCCD, 0x3F19_999A, 0x3E4C_CCCD, 0x3DCC_CCCD],
                    mat: Material::Metal,
                },
            ],
            world_size: 5,
        }
    }
}

/// A sphere takes up twelve words: its centre and radius lie at word 0, its
/// colour and parameter at word 4, its material's number at word 8.
pub proof fn lemma_sphere_layout(sphere: Sphere)
    ensures
        sphere.layout().len() == SPHERE_WORDS,
        sphere.layout().subrange(0, 4) == sphere.p@,
        sphere.layout().subrange(4, 8) == sphere.mat_p@,
        sphere.layout()[8] == sphere.mat.tag(),
        sphere.layout().subrange(9, 12) == seq![0u32, 0u32, 0u32],
{
    assert(sphere.layout().subrange(0, 4) =~= sphere.p@);
    assert(sphere.layout().subrange(4, 8) =~= sphere.mat_p@);
    assert(sphere.layout().subrange(9, 12) =~= seq![0u32, 0u32, 0u32]);
}

/// A camera takes up twenty words: the origin lies at word 0, the first
/// pixel at word 4, the two steps at words 8 and 12, and width, height,
/// sample size and bounce limit at words 16 to 19.
pub proof fn lemma_camera_layout(cam: Camera)
    ensures
        cam.layout().len() == CAMERA_WORDS,
        cam.layout().subrange(0, 4) == cam.origin@,
        cam.layout().subrange(4, 8) == cam.p00@,
        cam.layout().subrange(8, 12) == cam.du@,
        cam.layout().subrange(12, 16) == cam.dv@,
        cam.layout()[16] == cam.width,
        cam.layout()[17] == cam.height,
        cam.layout()[18] == cam.sample_size,
        cam.layout()[19] == cam.max_bounces,
{
    assert(cam.layout().subrange(0, 4) =~= cam.origin@);
    assert(cam.layout().subrange(4, 8) =~= cam.p00@);
    assert(cam.layout().subrange(8, 12) =~= cam.du@);
    assert(cam.layout().subrange(12, 16) =~= cam.dv@);
}

/// A scene takes up 84 words: the camera lies at word 0, sphere `i` at word
/// `20 + 12 * i`, the number of spheres at word 80, and the last three words
/// are zero.
pub proof fn lemma_scene_layout(scene: Scene)
    ensures
        scene.layout().len() == SCENE_WORDS,
        scene.layout().subrange(0, 20) == scene.cam.layout(),
        forall|i: int|
            0 <= i < 5 ==> scene.layout().subrange(20 + 12 * i, 32 + 12 * i)
                == #[trigger] scene.world[i].layout(),
        scene.layout()[80] == scene.world_size,
        scene.layout().subrange(81, 84) == seq![0u32, 0u32, 0u32],
{
    assert(scene.layout().subrange(0, 20) =~= scene.cam.layout());
    assert forall|i: int| 0 <= i < 5 implies scene.layout().subrange(20 + 12 * i, 32 + 12 * i)
        == #[trigger] scene.world[i].layout() by {
        assert(scene.layout().subrange(20 + 12 * i, 32 + 12 * i) =~= scene.world[i].layout());
    }
    assert(scene.layout().subrange(81, 84) =~= seq![0u32, 0u32, 0u32]);
}

} // verus!
