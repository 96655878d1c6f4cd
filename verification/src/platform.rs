//! From a target triple and a release to the compiler settings of a platform.

use crate::catalog::Version;
use crate::error::{BuildError, BuildErrorView};
use crate::text::{chars_contain, chars_end_with, chars_of, has_substring, has_suffix};
use vstd::prelude::*;

verus! {

/// The platforms that a target triple can name, in the order in which they
/// are looked for: the first that fits decides.
#[derive(Clone, Copy, Debug, PartialEq, Eq, Structural)]
pub enum Platform {
    /// The triple contains `linux`.
    Linux,
    /// The triple ends with `bsd`.
    Bsd,
    /// The triple contains `apple-darwin`.
    Darwin,
    /// The triple contains `apple-ios`.
    Ios,
    /// The triple contains `windows`.
    Windows,
    /// The triple ends with `emscripten`.
    Emscripten,
}

/// A preprocessor macro that a build defines, without a value.
#[derive(Clone, Copy, Debug, PartialEq, Eq, Structural)]
pub enum Define {
    /// `LUA_USE_LINUX`
    UseLinux,
    /// `LUA_USE_MACOSX`
    UseMacosx,
    /// `LUA_USE_IOS`
    UseIos,
    /// `LUA_USE_POSIX`
    UsePosix,
    /// `LUA_USE_WINDOWS`
    UseWindows,
    /// `LUA_COMPAT_5_3`
    Compat53,
    /// `LUA_USE_APICHECK`
    ApiCheck,
}

/// What a platform asks of a build of one release.
#[derive(Debug, PartialEq, Eq)]
pub struct PlatformProfile {
    /// The macros to define, in the order in which they are passed.
    pub defines: Vec<Define>,
    /// Whether the source tree must be staged for compilation as C++.
    pub transform: bool,
}

/// A [`PlatformProfile`] as a mathematical value.
pub struct PlatformProfileView {
    pub defines: Seq<Define>,
    pub transform: bool,
}

impl View for PlatformProfile {
    type V = PlatformProfileView;

    open spec fn view(&self) -> PlatformProfileView {
        PlatformProfileView { defines: self.defines@, transform: self.transform }
    }
}

impl Define {
    /// The macro's name.
    pub open spec fn macro_name(self) -> Seq<char> {
        match self {
            Define::UseLinux => "LUA_USE_LINUX"@,
            Define::UseMacosx => "LUA_USE_MACOSX"@,
            Define::UseIos => "LUA_USE_IOS"@,
            Define::UsePosix => "LUA_USE_POSIX"@,
            Define::UseWindows => "LUA_USE_WINDOWS"@,
            Define::Compat53 => "LUA_COMPAT_5_3"@,
            Define::ApiCheck => "LUA_USE_APICHECK"@,
        }
    }

    /// The macro's name.
    pub fn name(&self) -> (name: &'static str)
        ensures
            name@ == self.macro_name(),
    {
        match self {
            Define::UseLinux => "LUA_USE_LINUX",
            Define::UseMacosx => "LUA_USE_MACOSX",
            Define::UseIos => "LUA_USE_IOS",
            Define::UsePosix => "LUA_USE_POSIX",
            Define::UseWindows => "LUA_USE_WINDOWS",
            Define::Compat53 => "LUA_COMPAT_5_3",
            Define::ApiCheck => "LUA_USE_APICHECK",
        }
    }
}

/// The platform that the triple `target` names, if any.
pub open spec fn platform_of(target: Seq<char>) -> Option<Platform> {
    if has_substring(target, "linux"@) {
        Some(Platform::Linux)
    } else if has_suffix(target, "bsd"@) {
        Some(Platform::Bsd)
    } else if has_substring(target, "apple-darwin"@) {
        Some(Platform::Darwin)
    } else if has_substring(target, "apple-ios"@) {
        Some(Platform::Ios)
    } else if has_substring(target, "windows"@) {
        Some(Platform::Windows)
    } else if has_suffix(target, "emscripten"@) {
        Some(Platform::Emscripten)
    } else {
        None
    }
}

/// The macro that selects the code of `platform` in the release `version`.
/// The BSDs share the Linux code. The earliest release has no code of its own
/// for macOS, and only the newest has any for iOS.
pub open spec fn platform_define(platform: Platform, version: Version) -> Define {
    match platform {
        Platform::Linux => Define::UseLinux,
        Platform::Bsd => Define::UseLinux,
        Platform::Darwin => if version.is_earliest() {
            Define::UseLinux
        } else {
            Define::UseMacosx
        },
        Platform::Ios => if version.is_newest() {
            Define::UseIos
        } else {
            Define::UsePosix
        },
        Platform::Windows => Define::UseWindows,
        Platform::Emscripten => Define::UsePosix,
    }
}

/// What `platform` asks of a build of `version`: the platform's macro, then
/// the compatibility macro where the release is the newest; the source tree is
/// staged for Emscripten alone.
pub open spec fn profile_for(platform: Platform, version: Version) -> PlatformProfileView {
    PlatformProfileView {
        defines: if version.is_newest() {
            seq![platform_define(platform, version), Define::Compat53]
        } else {
            seq![platform_define(platform, version)]
        },
        transform: platform == Platform::Emscripten,
    }
}

/// The profile of a build of `version` for the triple `target`, or the
/// failure that names the triple where no platform fits it.
pub open spec fn resolution(target: Seq<char>, version: Version) -> Result<
    PlatformProfileView,
    BuildErrorView,
> {
    match platform_of(target) {
        Some(platform) => Ok(profile_for(platform, version)),
        None => Err(BuildErrorView::UnsupportedTarget(target)),
    }
}

/// The platform that the triple `target` names, if any.
pub fn classify(target: &str) -> (platform: Option<Platform>)
    ensures
        platform == platform_of(target@),
{
    let triple = chars_of(target);
    if chars_contain(&triple, &chars_of("linux")) {
        Some(Platform::Linux)
    } else if chars_end_with(&triple, &chars_of("bsd")) {
        Some(Platform::Bsd)
    } else if chars_contain(&triple, &chars_of("apple-darwin")) {
        Some(Platform::Darwin)
    } else if chars_contain(&triple, &chars_of("apple-ios")) {
        Some(Platform::Ios)
    } else if chars_contain(&triple, &chars_of("windows")) {
        Some(Platform::Windows)
    } else if chars_end_with(&triple, &chars_of("emscripten")) {
        Some(Platform::Emscripten)
    } else {
        None
    }
}

/// The macro that selects the code of `platform` in the release `version`.
pub fn select_define(platform: Platform, version: Version) -> (define: Define)
    ensures
        define == platform_define(platform, version),
{
    match platform {
        Platform::Linux => Define::UseLinux,
        Platform::Bsd => Define::UseLinux,
        Platform::Darwin => match version {
            Version::Lua51 => Define::UseLinux,
            _ => Define::UseMacosx,
        },
        Platform::Ios => match version {
            Version::Lua54 => Define::UseIos,
            _ => Define::UsePosix,
        },
        Platform::Windows => Define::UseWindows,
        Platform::Emscripten => Define::UsePosix,
    }
}

/// Resolves a target triple and a release to the platform's profile. A
/// triple that no platform fits is refused, with the triple in the failure.
pub fn resolve(target: &str, version: Version) -> (r: Result<PlatformProfile, BuildError>)
    ensures
        r matches Ok(profile) ==> resolution(target@, version) == Ok::<
            PlatformProfileView,
            BuildErrorView,
        >(profile@),
        r matches Err(error) ==> resolution(target@, version) == Err::<
            PlatformProfileView,
            BuildErrorView,
        >(error@),
{
    match classify(target) {
        Some(platform) => {
            let mut defines: Vec<Define> = Vec::new();
            defines.push(select_define(platform, version));
            if let Version::Lua54 = version {
                defines.push(Define::Compat53);
            }
            let transform = match platform {
                Platform::Emscripten => true,
                _ => false,
            };
            let profile = PlatformProfile { defines, transform };
            assert(profile@.defines =~= profile_for(platform, version).defines);
            Ok(profile)
        },
        None => Err(BuildError::UnsupportedTarget(target.to_owned())),
    }
}

/// Whatever the triple, a build of the earliest release never defines the
/// macro for macOS nor the one for iOS.
pub proof fn lemma_earliest_release_has_no_apple_define(target: Seq<char>)
    ensures
        resolution(target, Version::Lua51) matches Ok(profile) ==> !profile.defines.contains(
            Define::UseMacosx,
        ) && !profile.defines.contains(Define::UseIos),
{
}

/// A build of the earliest release defines the macro for Windows on no
/// triple but those that name Windows.
pub proof fn lemma_earliest_release_has_no_windows_define(target: Seq<char>)
    requires
        platform_of(target) != Some(Platform::Windows),
    ensures
        resolution(target, Version::Lua51) matches Ok(profile) ==> !profile.defines.contains(
            Define::UseWindows,
        ),
{
}

} // verus!
