use apple_mps::ray::{
    BuildState, GeometrySettings, IntersectionBuffers, IntersectorSettings,
};
use apple_mps::{
    acceleration_structure_status, acceleration_structure_usage, data_type, intersection_data_type,
    intersection_type, polygon_type, ray_data_type, Error,
};

const BUILT: usize = acceleration_structure_status::BUILT;

fn structure(vertex_buffer_length: isize, count: usize) -> GeometrySettings {
    GeometrySettings {
        polygon_type: polygon_type::TRIANGLE,
        vertex_stride: 16,
        vertex_buffer_offset: 0,
        vertex_buffer_length,
        index_type: data_type::UINT32,
        index_buffer_offset: 0,
        index_buffer_length: -1,
        polygon_count: count,
        usage: acceleration_structure_usage::NONE,
    }
}

fn rebuild(state: &mut BuildState, settings: &GeometrySettings) -> Result<(), Error> {
    let geometry = state.begin_rebuild(settings)?;
    state.finish_rebuild(geometry, BUILT)
}

fn packed_intersector() -> IntersectorSettings {
    IntersectorSettings {
        ray_data_type: ray_data_type::PACKED_ORIGIN_DIRECTION,
        intersection_data_type: intersection_data_type::DISTANCE_PRIMITIVE_INDEX,
        ray_stride: 0,
        intersection_stride: 0,
    }
}

fn buffers(ray_offset: usize, hit_offset: usize, count: usize) -> IntersectionBuffers {
    IntersectionBuffers {
        ray_buffer_length: 24,
        ray_buffer_offset: ray_offset,
        intersection_buffer_length: 8,
        intersection_buffer_offset: hit_offset,
        ray_count: count,
    }
}

#[test]
fn rebuild_checks_the_vertex_buffer() {
    let mut settings = structure(48, 2);
    assert_eq!(
        settings.validated_geometry(),
        Err(Error::BufferTooSmall {
            required: 92,
            length: 48,
        })
    );
    settings.polygon_count = 1;
    settings.validated_geometry().expect("one triangle fits");
    settings.vertex_stride = 13;
    assert_eq!(
        settings.validated_geometry(),
        Err(Error::Misaligned {
            field: "vertex_stride",
            value: 13,
            alignment: 4,
        })
    );
    settings.vertex_stride = 8;
    assert_eq!(
        settings.validated_geometry(),
        Err(Error::DimensionMismatch {
            field: "vertex_stride",
            expected: 12,
            actual: 8,
        })
    );
    settings.vertex_stride = 16;
    settings.vertex_buffer_offset = 2;
    assert!(matches!(
        settings.validated_geometry(),
        Err(Error::Misaligned {
            field: "vertex_buffer_offset",
            ..
        })
    ));
    settings.vertex_buffer_offset = 16;
    assert!(matches!(
        settings.validated_geometry(),
        Err(Error::BufferTooSmall { .. })
    ));
    settings.vertex_buffer_offset = 0;
    settings.vertex_buffer_length = -1;
    assert!(matches!(
        settings.validated_geometry(),
        Err(Error::InvalidArgument(_))
    ));
}

#[test]
fn rebuild_checks_the_index_buffer() {
    let mut settings = structure(48, 1);
    settings.index_buffer_length = 4;
    assert_eq!(
        settings.validated_geometry(),
        Err(Error::BufferTooSmall {
            required: 12,
            length: 4,
        })
    );
    settings.index_buffer_length = 16;
    settings.index_buffer_offset = 2;
    assert_eq!(
        settings.validated_geometry(),
        Err(Error::Misaligned {
            field: "index_buffer_offset",
            value: 2,
            alignment: 4,
        })
    );
    settings.index_buffer_offset = 8;
    assert_eq!(
        settings.validated_geometry(),
        Err(Error::BufferTooSmall {
            required: 20,
            length: 16,
        })
    );
    settings.index_buffer_offset = 0;
    let geometry = settings.validated_geometry().expect("indexed triangle");
    assert_eq!(geometry.index_type, Some(data_type::UINT32));
    let mut state = BuildState::new();
    rebuild(&mut state, &settings).expect("rebuild");
    packed_intersector()
        .check_intersection(intersection_type::NEAREST, buffers(0, 0, 1), &state, BUILT, &settings)
        .expect("encode");
}

#[test]
fn encoding_requires_a_current_rebuild() {
    let mut settings = structure(96, 1);
    let mut state = BuildState::new();
    let intersector = packed_intersector();
    let encode = |state: &BuildState, settings: &GeometrySettings| {
        intersector.check_intersection(intersection_type::NEAREST, buffers(0, 0, 1), state, BUILT, settings)
    };
    assert!(matches!(encode(&state, &settings), Err(Error::InvalidArgument(_))));
    assert!(matches!(
        state.check_refit(BUILT, &settings),
        Err(Error::InvalidArgument(_))
    ));
    rebuild(&mut state, &settings).expect("rebuild");
    settings.polygon_count = 2;
    assert!(matches!(encode(&state, &settings), Err(Error::InvalidArgument(_))));
    assert!(matches!(
        state.check_refit(BUILT, &settings),
        Err(Error::InvalidArgument(_))
    ));
    settings.polygon_count = 1;
    settings.vertex_buffer_length = 48;
    encode(&state, &settings).expect("same geometry, new buffer");
    assert!(matches!(
        state.check_refit(BUILT, &settings),
        Err(Error::InvalidArgument(_))
    ));
    settings.usage = acceleration_structure_usage::REFIT;
    assert!(matches!(encode(&state, &settings), Err(Error::InvalidArgument(_))));
    rebuild(&mut state, &settings).expect("rebuild for refitting");
    state.check_refit(BUILT, &settings).expect("refit");
    settings.vertex_buffer_length = 16;
    assert!(matches!(
        encode(&state, &settings),
        Err(Error::BufferTooSmall { .. })
    ));
}

#[test]
fn ray_and_intersection_buffers_are_checked() {
    let settings = structure(48, 1);
    let mut state = BuildState::new();
    rebuild(&mut state, &settings).expect("rebuild");
    let mut intersector = packed_intersector();
    let encode = |intersector: &IntersectorSettings, kind: usize, ray_offset: usize, hit_offset: usize, count: usize| {
        intersector.check_intersection(kind, buffers(ray_offset, hit_offset, count), &state, BUILT, &settings)
    };
    assert_eq!(
        encode(&intersector, intersection_type::NEAREST, 0, 0, 2),
        Err(Error::BufferTooSmall {
            required: 48,
            length: 24,
        })
    );
    assert_eq!(
        encode(&intersector, intersection_type::NEAREST, 4, 0, 1),
        Err(Error::Misaligned {
            field: "ray_buffer_offset",
            value: 4,
            alignment: 24,
        })
    );
    assert_eq!(
        encode(&intersector, intersection_type::NEAREST, 0, 8, 1),
        Err(Error::BufferTooSmall {
            required: 16,
            length: 8,
        })
    );
    assert!(matches!(encode(&intersector, 5, 0, 0, 1), Err(Error::InvalidArgument(_))));
    intersector.ray_stride = 20;
    assert_eq!(
        encode(&intersector, intersection_type::NEAREST, 0, 0, 1),
        Err(Error::DimensionMismatch {
            field: "ray_stride",
            expected: 24,
            actual: 20,
        })
    );
    intersector.ray_stride = 26;
    assert!(matches!(
        encode(&intersector, intersection_type::NEAREST, 0, 0, 1),
        Err(Error::Misaligned {
            field: "ray_stride",
            ..
        })
    ));
    intersector.ray_stride = 0;
    intersector.intersection_data_type = intersection_data_type::DISTANCE_PRIMITIVE_INDEX_COORDINATES;
    assert_eq!(
        encode(&intersector, intersection_type::NEAREST, 0, 0, 1),
        Err(Error::BufferTooSmall {
            required: 16,
            length: 8,
        })
    );
    intersector.intersection_data_type = 99;
    assert!(matches!(
        encode(&intersector, intersection_type::NEAREST, 0, 0, 1),
        Err(Error::InvalidArgument(_))
    ));
    intersector.intersection_data_type = intersection_data_type::DISTANCE;
    encode(&intersector, intersection_type::ANY, 0, 4, 1).expect("distance-only hits fit at offset 4");
    encode(&intersector, intersection_type::NEAREST, 0, 0, 0).expect("no rays");
}

#[test]
fn a_rebuild_that_mps_refuses_records_nothing() {
    let settings = structure(48, 1);
    let mut state = BuildState::new();
    let geometry = state.begin_rebuild(&settings).expect("valid settings");
    assert_eq!(
        state.finish_rebuild(geometry, acceleration_structure_status::UNBUILT),
        Err(Error::Rejected("MPSAccelerationStructure rebuild"))
    );
    assert_eq!(state.built(), None);
    assert!(matches!(state.ensure_built(BUILT, &settings), Err(Error::InvalidArgument(_))));
    rebuild(&mut state, &settings).expect("rebuild");
    assert_eq!(state.ensure_built(BUILT, &settings), Ok(geometry));
    assert!(matches!(
        state.ensure_built(acceleration_structure_status::UNBUILT, &settings),
        Err(Error::InvalidArgument(_))
    ));
}
