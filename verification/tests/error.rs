use llvmlibc_build::environment::Variable;
use llvmlibc_build::error::BuildError;
use llvmlibc_build::targets::Target;

#[test]
fn message_of_a_missing_variable() {
    let error = BuildError::MissingEnvironment { variable: Variable::TargetArch };
    assert_eq!(error.message(), "environment variable `CARGO_CFG_TARGET_ARCH` is not set");
}

#[test]
fn message_of_a_failed_target() {
    let error = BuildError::ExternalBuildFailure { target: Target::Libm };
    assert_eq!(error.message(), "building target `libm` failed");
    let error = BuildError::ExternalBuildFailure { target: Target::Crt1 };
    assert_eq!(
        error.message(),
        "building target `libc.startup.linux.crt1.__relocatable__` failed"
    );
}

#[test]
fn message_of_a_failed_archiver() {
    let error = BuildError::ArchiverFailure { status: Some(1) };
    assert_eq!(error.message(), "the archiver exited with status 1");
    let error = BuildError::ArchiverFailure { status: Some(-11) };
    assert_eq!(error.message(), "the archiver exited with status -11");
    let error = BuildError::ArchiverFailure { status: None };
    assert_eq!(error.message(), "the archiver was ended by a signal");
}

#[test]
fn message_of_a_new_placeholder() {
    let error = BuildError::PlaceholderArtifactDrift {
        archive: String::from("/out/build/lib/libunwind.a"),
    };
    assert_eq!(
        error.message(),
        "/out/build/lib/libunwind.a didn't previously exist; please inspect the new file and `git add` it"
    );
}

#[test]
fn a_duplicate_is_the_same_failure() {
    let errors = [
        BuildError::MissingEnvironment { variable: Variable::TargetArch },
        BuildError::ExternalBuildFailure { target: Target::Crtn },
        BuildError::ArchiverFailure { status: Some(3) },
        BuildError::ArchiverFailure { status: None },
        BuildError::PlaceholderArtifactDrift { archive: String::from("x/libunwind.a") },
    ];
    for error in errors.iter() {
        assert_eq!(&error.duplicate(), error);
    }
}
