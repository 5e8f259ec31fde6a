//! Hardware decoder backends that the decode driver may ask the multimedia
//! framework for. Acquisition is best-effort: a backend that cannot be set up
//! falls back to software decoding, so this type only names the preference.

use vstd::prelude::*;
use vstd::string::StringSliceAdditionalSpecFns;
use vstd::utf8::encode_utf8_decode_utf8;

verus! {

/// An enumerated configuration value that matched no valid choice; it
/// carries the offending text for the caller's error message.
#[derive(Clone, Debug, PartialEq, Eq)]
pub struct InvalidSetting {
    pub value: String,
}

/// Plain string equality: true exactly when the two views are the same
/// character sequence. Compares the UTF-8 bytes; equal encodings mean
/// equal character sequences because decoding inverts encoding.
fn str_eq(a: &str, b: &str) -> (r: bool)
    ensures
        r == (a@ == b@),
{
    let ab = a.as_bytes();
    let bb = b.as_bytes();
    if ab.len() != bb.len() {
        proof {
            if a@ == b@ {
                assert(a.spec_bytes() == b.spec_bytes());
            }
        }
        return false;
    }
    let n = ab.len();
    let mut i: usize = 0;
    while i < n
        invariant
            n == ab@.len(),
            n == bb@.len(),
            0 <= i <= n,
            ab@ == a.spec_bytes(),
            bb@ == b.spec_bytes(),
            forall|j: int| 0 <= j < i ==> ab@[j] == bb@[j],
        decreases n - i,
    {
        if ab[i] != bb[i] {
            proof {
                if a@ == b@ {
                    assert(a.spec_bytes() == b.spec_bytes());
                }
            }
            return false;
        }
        i = i + 1;
    }
    proof {
        assert(a.spec_bytes() =~= b.spec_bytes());
        encode_utf8_decode_utf8(a@);
        encode_utf8_decode_utf8(b@);
    }
    true
}

/// A hardware video decoder backend, as named in user configuration and on
/// the command line. `Software` selects pure software decoding.
#[derive(Clone, Copy, Debug, PartialEq, Eq, Structural)]
pub enum DeviceType {
    Software,
    /// Compute Unified Device Architecture (Nvidia)
    Cuda,
    /// Direct3D 11 Video API
    D3d11va,
    /// Direct3D 12 Video API
    D3d12va,
    /// DirectX Video Acceleration 2.0
    Dxva2,
    /// Direct Rendering Manager
    Drm,
    /// MediaCodec (Android)
    MediaCodec,
    /// OpenCL
    OpenCl,
    /// Intel Quick Sync Video
    Qsv,
    /// Video Acceleration API
    Vaapi,
    /// Video Decode and Presentation API for Unix
    Vdpau,
    /// VideoToolbox (Apple)
    VideoToolbox,
    /// Vulkan
    Vulkan,
}

impl DeviceType {
    /// The user-facing name of a backend, as a mathematical value.
    pub open spec fn spec_name(self) -> Seq<char> {
        match self {
            DeviceType::Software => "None"@,
            DeviceType::Cuda => "CUDA"@,
            DeviceType::Dxva2 => "DirectX Video Acceleration 2.0"@,
            DeviceType::D3d11va => "DirectX 11 Video Acceleration"@,
            DeviceType::D3d12va => "DirectX 12 Video Acceleration"@,
            DeviceType::Drm => "Direct Rendering Manager (DRM)"@,
            DeviceType::MediaCodec => "MediaCodec"@,
            DeviceType::OpenCl => "OpenCL"@,
            DeviceType::Qsv => "Intel Quick Video Sync"@,
            DeviceType::Vaapi => "VA-API"@,
            DeviceType::Vdpau => "VDPAU"@,
            DeviceType::VideoToolbox => "VideoToolbox"@,
            DeviceType::Vulkan => "Vulkan"@,
        }
    }

    /// The short configuration/CLI name of a backend, as a mathematical value.
    pub open spec fn spec_short_name(self) -> Seq<char> {
        match self {
            DeviceType::Software => "none"@,
            DeviceType::Cuda => "cuda"@,
            DeviceType::Dxva2 => "dxva2"@,
            DeviceType::D3d11va => "d3d11va"@,
            DeviceType::D3d12va => "d3d12va"@,
            DeviceType::Drm => "drm"@,
            DeviceType::MediaCodec => "mediacodec"@,
            DeviceType::OpenCl => "opencl"@,
            DeviceType::Qsv => "qsv"@,
            DeviceType::Vaapi => "vaapi"@,
            DeviceType::Vdpau => "vdpau"@,
            DeviceType::VideoToolbox => "videotoolbox"@,
            DeviceType::Vulkan => "vulkan"@,
        }
    }

    /// Hardware device names for user facing interfaces (logging, configs).
    pub fn name(self) -> (r: &'static str)
        ensures
            r@ == self.spec_name(),
    {
        match self {
            DeviceType::Software => "None",
            DeviceType::Cuda => "CUDA",
            DeviceType::Dxva2 => "DirectX Video Acceleration 2.0",
            DeviceType::D3d11va => "DirectX 11 Video Acceleration",
            DeviceType::D3d12va => "DirectX 12 Video Acceleration",
            DeviceType::Drm => "Direct Rendering Manager (DRM)",
            DeviceType::MediaCodec => "MediaCodec",
            DeviceType::OpenCl => "OpenCL",
            DeviceType::Qsv => "Intel Quick Video Sync",
            DeviceType::Vaapi => "VA-API",
            DeviceType::Vdpau => "VDPAU",
            DeviceType::VideoToolbox => "VideoToolbox",
            DeviceType::Vulkan => "Vulkan",
        }
    }

    /// Short name for CLI arguments and configuration files.
    pub fn short_name(self) -> (r: &'static str)
        ensures
            r@ == self.spec_short_name(),
    {
        match self {
            DeviceType::Software => "none",
            DeviceType::Cuda => "cuda",
            DeviceType::Dxva2 => "dxva2",
            DeviceType::D3d11va => "d3d11va",
            DeviceType::D3d12va => "d3d12va",
            DeviceType::Drm => "drm",
            DeviceType::MediaCodec => "mediacodec",
            DeviceType::OpenCl => "opencl",
            DeviceType::Qsv => "qsv",
            DeviceType::Vaapi => "vaapi",
            DeviceType::Vdpau => "vdpau",
            DeviceType::VideoToolbox => "videotoolbox",
            DeviceType::Vulkan => "vulkan",
        }
    }
}

impl DeviceType {
    /// Parses a backend's short name, as found in configuration files and
    /// CLI arguments. Succeeds exactly on the thirteen valid names; any
    /// other text is returned inside the error, so the caller can report
    /// the offending value along with the valid choices.
    pub fn from_str(s: &str) -> (r: Result<DeviceType, InvalidSetting>)
        ensures
            match r {
                Ok(d) => s@ == d.spec_short_name(),
                Err(e) => e.value@ == s@ && (forall|d: DeviceType|
                    s@ != #[trigger] d.spec_short_name()),
            },
    {
        if str_eq(s, "none") {
            Ok(DeviceType::Software)
        } else if str_eq(s, "cuda") {
            Ok(DeviceType::Cuda)
        } else if str_eq(s, "dxva2") {
            Ok(DeviceType::Dxva2)
        } else if str_eq(s, "d3d11va") {
            Ok(DeviceType::D3d11va)
        } else if str_eq(s, "d3d12va") {
            Ok(DeviceType::D3d12va)
        } else if str_eq(s, "drm") {
            Ok(DeviceType::Drm)
        } else if str_eq(s, "mediacodec") {
            Ok(DeviceType::MediaCodec)
        } else if str_eq(s, "opencl") {
            Ok(DeviceType::OpenCl)
        } else if str_eq(s, "qsv") {
            Ok(DeviceType::Qsv)
        } else if str_eq(s, "vaapi") {
            Ok(DeviceType::Vaapi)
        } else if str_eq(s, "vdpau") {
            Ok(DeviceType::Vdpau)
        } else if str_eq(s, "videotoolbox") {
            Ok(DeviceType::VideoToolbox)
        } else if str_eq(s, "vulkan") {
            Ok(DeviceType::Vulkan)
        } else {
            Err(InvalidSetting { value: s.to_owned() })
        }
    }
}

/// Short names identify backends uniquely, so a name written by
/// `short_name` is read back by `from_str` as the same backend.
pub proof fn lemma_short_names_injective(d1: DeviceType, d2: DeviceType)
    requires
        d1.spec_short_name() == d2.spec_short_name(),
    ensures
        d1 == d2,
{
    reveal_strlit("none");
    reveal_strlit("cuda");
    reveal_strlit("dxva2");
    reveal_strlit("d3d11va");
    reveal_strlit("d3d12va");
    reveal_strlit("drm");
    reveal_strlit("mediacodec");
    reveal_strlit("opencl");
    reveal_strlit("qsv");
    reveal_strlit("vaapi");
    reveal_strlit("vdpau");
    reveal_strlit("videotoolbox");
    reveal_strlit("vulkan");
    // Names of equal length are told apart by one character.
    assert(("none"@)[0] != ("cuda"@)[0]);
    assert(("drm"@)[0] != ("qsv"@)[0]);
    assert(("dxva2"@)[0] != ("vaapi"@)[0]);
    assert(("dxva2"@)[0] != ("vdpau"@)[0]);
    assert(("vaapi"@)[1] != ("vdpau"@)[1]);
    assert(("d3d11va"@)[4] != ("d3d12va"@)[4]);
    assert(("opencl"@)[0] != ("vulkan"@)[0]);
    match d1 {
        DeviceType::Software => assert(d2.spec_short_name() == "none"@),
        DeviceType::Cuda => assert(d2.spec_short_name() == "cuda"@),
        DeviceType::Dxva2 => assert(d2.spec_short_name() == "dxva2"@),
        DeviceType::D3d11va => assert(d2.spec_short_name() == "d3d11va"@),
        DeviceType::D3d12va => assert(d2.spec_short_name() == "d3d12va"@),
        DeviceType::Drm => assert(d2.spec_short_name() == "drm"@),
        DeviceType::MediaCodec => assert(d2.spec_short_name() == "mediacodec"@),
        DeviceType::OpenCl => assert(d2.spec_short_name() == "opencl"@),
        DeviceType::Qsv => assert(d2.spec_short_name() == "qsv"@),
        DeviceType::Vaapi => assert(d2.spec_short_name() == "vaapi"@),
        DeviceType::Vdpau => assert(d2.spec_short_name() == "vdpau"@),
        DeviceType::VideoToolbox => assert(d2.spec_short_name() == "videotoolbox"@),
        DeviceType::Vulkan => assert(d2.spec_short_name() == "vulkan"@),
    }
    assert(d1 == d2);
}

impl Default for DeviceType {
    /// The preferred backend when the configuration does not choose one.
    fn default() -> (r: Self)
        ensures
            r == DeviceType::Vaapi,
    {
        DeviceType::Vaapi
    }
}

} // verus!
