use fluster::{
    decode_layers, BackingStore, Layer, LayerContent, Point, RawLayer, RawLayerPayload,
    RawPlatformViewMutation, PlatformViewMutation, Rect, Size, SoftwareBackingStore,
    SoftwarePixelFormat, Transformation,
};

fn store() -> BackingStore {
    BackingStore::Software(SoftwareBackingStore {
        allocation: 64,
        row_bytes: 16,
        height: 4,
        pixel_format: SoftwarePixelFormat::RGBA8888,
    })
}

fn rect(v: f64) -> Rect<f64> {
    Rect { left: v, top: v, right: v + 1.0, bottom: v + 2.0 }
}

#[test]
fn no_layers_decode_to_no_layers() {
    let raw: Vec<RawLayer<f64>> = Vec::new();
    assert!(decode_layers(&raw).is_empty());
}

#[test]
fn layers_decode_in_order() {
    let raw = vec![
        RawLayer {
            offset: Point { x: 1.5, y: 2.5 },
            size: Size { width: 10.0, height: 20.0 },
            content_type: 0,
            payload: RawLayerPayload::BackingStore(store().to_raw(40), vec![rect(0.0), rect(3.0)]),
            presentation_time: 99,
        },
        RawLayer {
            offset: Point { x: 0.0, y: 0.0 },
            size: Size { width: 5.0, height: 5.0 },
            content_type: 1,
            payload: RawLayerPayload::PlatformView(
                7,
                vec![
                    RawPlatformViewMutation { mutation_type: 0, payload: PlatformViewMutation::Opacity(0.5) },
                    RawPlatformViewMutation { mutation_type: 1, payload: PlatformViewMutation::ClipRect(rect(1.0)) },
                ],
            ),
            presentation_time: 0,
        },
    ];
    assert!(raw.iter().all(Layer::is_decodable));
    let layers = decode_layers(&raw);
    assert_eq!(layers.len(), 2);
    assert_eq!(layers[0].offset, Point { x: 1.5, y: 2.5 });
    assert_eq!(layers[0].presentation_time, 99);
    match &layers[0].content {
        LayerContent::BackingStore(s, info) => {
            assert_eq!(*s, store());
            assert_eq!(info.paint_region.rects, vec![rect(0.0), rect(3.0)]);
        }
        _ => panic!("backing store layer expected"),
    }
    match &layers[1].content {
        LayerContent::PlatformView(view) => {
            assert_eq!(view.identifier, 7);
            assert_eq!(view.mutations, vec![PlatformViewMutation::Opacity(0.5), PlatformViewMutation::ClipRect(rect(1.0))]);
        }
        _ => panic!("platform view layer expected"),
    }
}

#[test]
fn layer_with_mismatched_tag_is_not_decodable() {
    let bad_tag = RawLayer {
        offset: Point { x: 0.0, y: 0.0 },
        size: Size { width: 1.0, height: 1.0 },
        content_type: 1,
        payload: RawLayerPayload::BackingStore(store().to_raw(40), vec![]),
        presentation_time: 0,
    };
    assert!(!Layer::is_decodable(&bad_tag));
    let bad_mutation = RawLayer {
        offset: Point { x: 0.0, y: 0.0 },
        size: Size { width: 1.0, height: 1.0 },
        content_type: 1,
        payload: RawLayerPayload::PlatformView(
            1,
            vec![RawPlatformViewMutation { mutation_type: 3, payload: PlatformViewMutation::Opacity(1.0) }],
        ),
        presentation_time: 0,
    };
    assert!(!Layer::is_decodable(&bad_mutation));
}

#[test]
fn identity_transformation() {
    let t: Transformation<i64> = Transformation::identity();
    assert_eq!(
        t,
        Transformation { scale_x: 1, skew_x: 0, trans_x: 0, skew_y: 0, scale_y: 1, trans_y: 0, pers0: 0, pers1: 0, pers2: 1 }
    );
}
