//! The family-based planner, driven the way a caller drives it: the caller
//! does the trigonometry, the library decides.
use robot_algorithms::algorithms::path_planning::dubins::DubinsPath;
use robot_algorithms::algorithms::path_planning::dubins::Error;
use robot_algorithms::algorithms::path_planning::dubins::PathSegmentType;
use robot_algorithms::algorithms::path_planning::dubins::PathType;
use robot_algorithms::path_planning::curved_paths;
use robot_algorithms::prelude::Vec2;
use robot_algorithms::scalar::Scalar;
use std::f64::consts::FRAC_PI_4;
use std::f64::consts::PI;
use std::f64::consts::TAU;

fn s(v: f64) -> Scalar {
    Scalar::from_bits(v.to_bits())
}

fn f(v: Scalar) -> f64 {
    f64::from_bits(v.to_bits())
}

fn v2(x: f64, y: f64) -> Vec2 {
    Vec2::new(s(x), s(y))
}

fn map_to_2pi(angle: f64) -> f64 {
    let val = angle % TAU;
    if val < 0.0 {
        TAU + val
    } else {
        val
    }
}

/// The criterion and the three lengths of a family, in the order of its segments.
fn formula(family: PathType, alpha: f64, beta: f64, dist: f64) -> (f64, f64, f64, f64) {
    let (sa, ca) = (alpha.sin(), alpha.cos());
    let (sb, cb) = (beta.sin(), beta.cos());
    let cab = (alpha - beta).cos();
    match family {
        PathType::RSR => {
            let p_sq = 2.0 + dist * dist - (2.0 * cab) + (2.0 * dist * (sb - sa));
            let tmp = (ca - cb).atan2(dist - sa + sb);
            (p_sq, map_to_2pi(alpha - tmp), p_sq.sqrt(), map_to_2pi(tmp - beta))
        }
        PathType::RSL => {
            let p_sq = dist * dist - 2.0 + (2.0 * cab) - (2.0 * dist * (sa + sb));
            let run = p_sq.sqrt();
            let tmp = (ca + cb).atan2(dist - sa - sb) - 2.0f64.atan2(run);
            (p_sq, map_to_2pi(alpha - tmp), run, map_to_2pi(beta - tmp))
        }
        PathType::LSR => {
            let p_sq = -2.0 + dist * dist + (2.0 * cab) + (2.0 * dist * (sa + sb));
            let run = p_sq.sqrt();
            let tmp = (-ca - cb).atan2(dist + sa + sb) - (-2.0f64).atan2(run);
            (p_sq, map_to_2pi(tmp - alpha), run, map_to_2pi(tmp - map_to_2pi(beta)))
        }
        PathType::LSL => {
            let p_sq = 2.0 + dist * dist - (2.0 * cab) + (2.0 * dist * (sa - sb));
            let tmp = (cb - ca).atan2(dist + sa - sb);
            (p_sq, map_to_2pi(tmp - alpha), p_sq.sqrt(), map_to_2pi(beta - tmp))
        }
        PathType::RLR => {
            let tmp = (6.0 - dist * dist + 2.0 * cab + 2.0 * dist * (sa - sb)) / 8.0;
            let d2 = map_to_2pi(TAU - tmp.acos());
            let d1 = map_to_2pi(alpha - (ca - cb).atan2(dist - sa + sb) + d2 / 2.0);
            (tmp, d1, d2, map_to_2pi(alpha - beta - d1 + d2))
        }
        PathType::LRL => {
            let tmp = (6.0 - dist * dist + 2.0 * cab + 2.0 * dist * (sb - sa)) / 8.0;
            let d2 = map_to_2pi(TAU - tmp.acos());
            let d1 = map_to_2pi(-alpha - (ca - cb).atan2(dist + sa - sb) + d2 / 2.0);
            (tmp, d1, d2, map_to_2pi(map_to_2pi(beta) - alpha - d1 + map_to_2pi(d2)))
        }
    }
}

fn solve(x0: (f64, f64), y0: f64, x1: (f64, f64), y1: f64, max_curve: f64) -> Result<DubinsPath, Error> {
    let (dx, dy) = (x1.0 - x0.0, x1.1 - x0.1);
    let rx = dx * (-y0).cos() - dy * (-y0).sin();
    let ry = dx * (-y0).sin() + dy * (-y0).cos();
    let rh = y1 - y0;
    let d = max_curve * (rx * rx + ry * ry).sqrt();
    let theta = ry.atan2(rx) % TAU;
    let alpha = -theta % TAU;
    let beta = (rh - theta) % TAU;
    let mut candidates = [None; 6];
    let mut totals = [s(0.0); 6];
    for (i, family) in PathType::all().into_iter().enumerate() {
        let (criterion, d1, d2, d3) = formula(family, alpha, beta, d);
        candidates[i] = family.get_distances(s(criterion), s(d1), s(d2), s(d3));
        totals[i] = s(d1 + d2 + d3);
    }
    DubinsPath::new(
        v2(x0.0, x0.1),
        s(y0),
        v2(x1.0, x1.1),
        s(y1),
        s(max_curve),
        (v2(rx, ry), s(rh)),
        candidates,
        totals,
    )
}

fn point_value(
    segment: curved_paths::PathSegmentType,
    origin: (f64, f64, f64),
    current_length: f64,
    max_curve: f64,
) -> (f64, f64, f64) {
    let (ox, oy, oh) = origin;
    match segment {
        curved_paths::PathSegmentType::Straight(_) => (
            ox + oh.cos() * current_length / max_curve,
            oy + oh.sin() * current_length / max_curve,
            oh,
        ),
        curved_paths::PathSegmentType::Nill => unreachable!(),
        turn => {
            let left = matches!(turn, curved_paths::PathSegmentType::Left(_));
            let local_x = current_length.sin() / max_curve;
            let mut local_y = (1.0 - current_length.cos()) / max_curve;
            if !left {
                local_y *= -1.0;
            }
            let diff_x = oh.cos() * local_x + (-oh).sin() * local_y;
            let diff_y = -(-oh).sin() * local_x + oh.cos() * local_y;
            (
                ox + diff_x,
                oy + diff_y,
                if left { oh + current_length } else { oh - current_length },
            )
        }
    }
}

fn lay_out(path: &DubinsPath, step_size: f64) -> Vec<(f64, f64, f64)> {
    let max_curve = f(path.max_curve);
    let mut walk = path.get_points_local(s(step_size));
    while let Some((cursor, stride)) = walk.pending() {
        walk.advance(s(f(cursor) + f(stride)));
    }
    let mut local = vec![(0.0, 0.0, 0.0)];
    for sample in walk.samples() {
        let origin = local[sample.origin];
        local.push(point_value(sample.segment, origin, f(sample.offset), max_curve));
    }
    let (sx, sy, sh) = (f(path.start.0.x), f(path.start.0.y), f(path.start.1));
    local
        .into_iter()
        .map(|(x, y, h)| (x * sh.cos() - y * sh.sin() + sx, x * sh.sin() + y * sh.cos() + sy, h + sh))
        .collect()
}

#[test]
fn dubin_path() {
    solve((1.0, 1.0), PI / 4.0, (-3.0, -3.0), -PI / 4.0, 1.0).unwrap();
}

#[test]
fn dubin_path_selects_left_straight_left() {
    let path = solve((1.0, 1.0), PI / 4.0, (-3.0, -3.0), -PI / 4.0, 1.0).unwrap();
    assert_eq!(path.path_type, PathType::LSL);
    assert_eq!(
        path.path_type.get_path_segment_types(),
        [PathSegmentType::Left, PathSegmentType::Straight, PathSegmentType::Left]
    );
    assert!((f(path.distances[0]) - 3.3531176436132273).abs() < 1e-12);
    assert!((f(path.distances[1]) - 4.76301285963152).abs() < 1e-12);
    assert!((f(path.distances[2]) - 1.3592713367714622).abs() < 1e-12);
    assert_eq!(f(path.max_curve), 1.0);
    assert_eq!((f(path.start.0.x), f(path.start.0.y), f(path.start.1)), (1.0, 1.0, PI / 4.0));
    assert_eq!((f(path.end.0.x), f(path.end.0.y), f(path.end.1)), (-3.0, -3.0, -PI / 4.0));
    assert!((f(path.relative_end.0.x) + 5.65685424949238).abs() < 1e-12);
    assert!(f(path.relative_end.0.y).abs() < 1e-12);
    assert!((f(path.relative_end.1) + PI / 2.0).abs() < 1e-12);
}

#[test]
fn get_points() {
    let path = solve((1.0, 1.0), PI / 4.0, (-3.0, -3.0), -PI / 4.0, 1.0).unwrap();

    let points = lay_out(&path, 0.1);

    let ref_points: Vec<(f64, f64, f64)> = vec![
        (1.0, 1.0, FRAC_PI_4),
        (1.067060297290399, 1.0741254745095894, 0.8853981633974479),
        (1.126385373038269, 1.1545754889996935, 0.9853981633974485),
        (1.177382470697, 1.2405462135187664, 1.085398163397448),
        (1.2195420441241855, 1.3311786570055566, 1.1853981633974477),
        (1.2524428487982429, 1.4255672500438468, 1.2853981633974483),
        (1.2757561507544293, 1.5227688930127192, 1.3853981633974488),
        (1.2892490111859514, 1.62181237922622, 1.4853981633974485),
        (1.292786613891524, 1.7217080989095277, 1.585398163397448),
        (1.2863336123142892, 1.8214579270527014, 1.6853981633974477),
        (1.269954482712928, 1.9200651963458437, 1.7853981633974483),
        (1.243812879936197, 2.0165446555494073, 1.885398163397448),
        (1.2081700022377755, 2.1099323137988986, 1.9853981633974485),
        (1.1633819814696582, 2.1992950724829456, 2.085398163397448),
        (1.1098963247304081, 2.2837400484561767, 2.1853981633974486),
        (1.0482474430221567, 2.362423495432466, 2.2853981633974483),
        (0.9790513115925215, 2.4345592344189155, 2.385398163397449),
        (0.9029993153135479, 2.4994265089564776, 2.4853981633974485),
        (0.8208513405926077, 2.556377186680243, 2.585398163397449),
        (0.733428182838602, 2.604842235243788, 2.6853981633974486),
        (0.6416033453455557, 2.6443374079022797, 2.785398163397449),
        (0.5462943115364431, 2.6744680819458835, 2.885398163397449),
        (0.4484533777721068, 2.6949332016394316, 2.9853981633974485),
        (0.34905813832080734, 2.7055282862718157, 3.085398163397449),
        (0.249101717559445, 2.706147473259658, -3.0977871437821367),
        (0.14958284700306645, 2.696784575891253, -2.997787143782137),
        (0.05149588630970692, 2.6775331451421422, -2.8977871437821374),
        (-0.04417911203262448, 2.648585534944694, -2.797787143782137),
        (-0.13648619506644044, 2.6102309802511945, -2.6977871437821364),
        (-0.22450306093073213, 2.5628527070938096, -2.5977871437821367),
        (-0.30735027419629124, 2.506924103516754, -2.497787143782137),
        (-0.3842000528938163, 2.443003989639431, -2.3977871437821365),
        (-0.4542845394377204, 2.3717310341105224, -2.297787143782136),
        (-0.5469113582225731, 2.249995602575736, -2.144669500168911),
        (-0.601200240361492, 2.1660151448721336, -2.144669500168911),
        (-0.6554891225004107, 2.082034687168531, -2.144669500168911),
        (-0.7097780046393298, 1.9980542294649284, -2.144669500168911),
        (-0.7640668867782485, 1.914073771761326, -2.144669500168911),
        (-0.8183557689171674, 1.8300933140577236, -2.144669500168911),
        (-0.8726446510560864, 1.746112856354121, -2.144669500168911),
        (-0.926933533195005, 1.6621323986505185, -2.144669500168911),
        (-0.981222415333924, 1.578151940946916, -2.144669500168911),
        (-1.0355112974728433, 1.4941714832433135, -2.144669500168911),
        (-1.0898001796117618, 1.410191025539711, -2.144669500168911),
        (-1.1440890617506807, 1.3262105678361085, -2.144669500168911),
        (-1.1983779438895996, 1.2422301101325057, -2.144669500168911),
        (-1.2526668260285185, 1.1582496524289032, -2.144669500168911),
        (-1.3069557081674374, 1.0742691947253005, -2.144669500168911),
        (-1.3612445903063564, 0.990288737021698, -2.144669500168911),
        (-1.4155334724452748, 0.9063082793180954, -2.144669500168911),
        (-1.4698223545841942, 0.8223278216144925, -2.144669500168911),
        (-1.524111236723113, 0.73834736391089, -2.144669500168911),
        (-1.578400118862032, 0.6543669062072874, -2.144669500168911),
        (-1.6326890010009505, 0.5703864485036849, -2.144669500168911),
        (-1.6869778831398694, 0.4864059908000824, -2.144669500168911),
        (-1.7412667652787888, 0.40242553309647944, -2.144669500168911),
        (-1.7955556474177077, 0.3184450753928769, -2.144669500168911),
        (-1.8498445295566266, 0.23446461768927418, -2.144669500168911),
        (-1.9041334116955455, 0.15048415998567188, -2.144669500168911),
        (-1.9584222938344644, 0.06650370228206914, -2.144669500168911),
        (-2.0127111759733833, -0.017476755421533152, -2.144669500168911),
        (-2.0670000581123023, -0.10145721312513611, -2.144669500168911),
        (-2.121288940251221, -0.18543767082873885, -2.144669500168911),
        (-2.17557782239014, -0.26941812853234137, -2.144669500168911),
        (-2.229866704529059, -0.3533985862359439, -2.144669500168911),
        (-2.284155586667978, -0.43737904393954663, -2.144669500168911),
        (-2.3384444688068973, -0.5213595016431491, -2.144669500168911),
        (-2.3927333509458153, -0.6053399593467517, -2.144669500168911),
        (-2.4470222330847347, -0.6893204170503546, -2.144669500168911),
        (-2.5013111152236536, -0.7733008747539571, -2.144669500168911),
        (-2.5555999973625725, -0.8572813324575597, -2.144669500168911),
        (-2.6098888795014914, -0.9412617901611622, -2.144669500168911),
        (-2.66417776164041, -1.0252422478647643, -2.144669500168911),
        (-2.7184666437793292, -1.1092227055683672, -2.144669500168911),
        (-2.7727555259182477, -1.1932031632719697, -2.144669500168911),
        (-2.827044408057166, -1.2771836209755714, -2.144669500168911),
        (-2.8813332901960846, -1.3611640786791734, -2.144669500168911),
        (-2.9356221723350036, -1.445144536382776, -2.144669500168911),
        (-2.989911054473922, -1.529124994086378, -2.144669500168911),
        (-3.0441999366128405, -1.61310545178998, -2.144669500168911),
        (-3.132697795849478, -1.7500043974242625, -2.144669500168911),
        (-3.1827007168825014, -1.8365571404894814, -2.0446695001689106),
        (-3.223812975526071, -1.9276694428046603, -1.94466950016891),
        (-3.255623791681728, -2.0224309403627907, -1.8446695001689104),
        (-3.277815322189701, -2.119894807604256, -1.7446695001689108),
        (-3.290165836612702, -2.2190872177848537, -1.6446695001689111),
        (-3.29255193269315, -2.319017073130708, -1.5446695001689106),
        (-3.28494976934775, -2.418685907559622, -1.444669500168911),
        (-3.267435304879708, -2.5170978630241185, -1.3446695001689104),
        (-3.240183538028476, -2.613269639795865, -1.2446695001689108),
        (-3.203466759440194, -2.706240321271519, -1.1446695001689111),
        (-3.157651831029564, -2.795080975133798, -1.0446695001689115),
        (-3.103196520416864, -2.878903934936127, -0.94466950016891),
        (-3.000000000000001, -2.9999999999999987, -0.7853981633974492),
    ];
    assert_eq!(points.len(), ref_points.len());
    for (refp, p) in ref_points.into_iter().zip(points.into_iter().map(|v| {
        if v.2 > PI {
            (v.0, v.1, v.2 - TAU)
        } else {
            v
        }
    })) {
        assert!((refp.0 - p.0).abs() <= 1e-10);
        assert!((refp.1 - p.1).abs() <= 1e-10);
        assert!((refp.2 - p.2).abs() <= 1e-10);
    }
}

#[test]
fn sampled_dubins_path_starts_at_the_start_and_ends_at_the_end() {
    for &(x0, y0, h0, x1, y1, h1, curve) in [
        (1.0, 1.0, PI / 4.0, -3.0, -3.0, -PI / 4.0, 1.0),
        (0.0, 0.0, 0.0, 10.0, 0.0, 0.0, 2.0),
        (0.0, 0.0, 0.0, 1.0, 1.0, PI, 0.5),
        (-2.0, 5.0, 3.0, 4.0, -1.0, -2.0, 3.0),
    ]
    .iter()
    {
        let path = solve((x0, y0), h0, (x1, y1), h1, curve).unwrap();
        let points = lay_out(&path, 0.05);
        let first = points[0];
        assert_eq!((first.0, first.1, first.2), (x0, y0, h0));
        let last = points[points.len() - 1];
        assert!((last.0 - x1).abs() < 1e-9, "{} {}", last.0, x1);
        assert!((last.1 - y1).abs() < 1e-9, "{} {}", last.1, y1);
        assert!(((last.2 - h1) / TAU - ((last.2 - h1) / TAU).round()).abs() < 1e-9);
    }
}

#[test]
fn family_has_no_solution_against_its_criterion() {
    let d = (s(0.5), s(1.5), s(2.5));
    for family in [PathType::RSR, PathType::RSL, PathType::LSR, PathType::LSL] {
        assert_eq!(family.get_distances(s(-1e-9), d.0, d.1, d.2), None);
        assert_eq!(family.get_distances(s(0.0), d.0, d.1, d.2), Some((d.0, d.1, d.2, family)));
        assert_eq!(family.get_distances(s(-0.0), d.0, d.1, d.2), Some((d.0, d.1, d.2, family)));
        assert_eq!(family.get_distances(s(7.0), d.0, d.1, d.2), Some((d.0, d.1, d.2, family)));
    }
    for family in [PathType::RLR, PathType::LRL] {
        assert_eq!(family.get_distances(s(1.0 + 1e-9), d.0, d.1, d.2), None);
        assert_eq!(family.get_distances(s(-1.0 - 1e-9), d.0, d.1, d.2), None);
        assert_eq!(family.get_distances(s(1.0), d.0, d.1, d.2), Some((d.0, d.1, d.2, family)));
        assert_eq!(family.get_distances(s(-1.0), d.0, d.1, d.2), Some((d.0, d.1, d.2, family)));
        assert_eq!(family.get_distances(s(0.25), d.0, d.1, d.2), Some((d.0, d.1, d.2, family)));
    }
}

#[test]
fn families_are_their_three_segments() {
    let (left, right, straight) = (PathSegmentType::Left, PathSegmentType::Right, PathSegmentType::Straight);
    assert_eq!(PathType::RSR.get_path_segment_types(), [right, straight, right]);
    assert_eq!(PathType::RSL.get_path_segment_types(), [right, straight, left]);
    assert_eq!(PathType::LSR.get_path_segment_types(), [left, straight, right]);
    assert_eq!(PathType::LSL.get_path_segment_types(), [left, straight, left]);
    assert_eq!(PathType::RLR.get_path_segment_types(), [right, left, right]);
    assert_eq!(PathType::LRL.get_path_segment_types(), [left, right, left]);
    assert_eq!(
        PathType::all(),
        [PathType::RSR, PathType::RSL, PathType::LSR, PathType::LSL, PathType::RLR, PathType::LRL]
    );
}

fn pick(candidates: [Option<(f64, f64, f64)>; 6]) -> Result<DubinsPath, Error> {
    let families = PathType::all();
    let mut given = [None; 6];
    let mut totals = [s(0.0); 6];
    for i in 0..6 {
        if let Some((a, b, c)) = candidates[i] {
            given[i] = Some((s(a), s(b), s(c), families[i]));
            totals[i] = s(a + b + c);
        }
    }
    DubinsPath::new(v2(0.0, 0.0), s(0.0), v2(1.0, 0.0), s(0.0), s(1.0), (v2(1.0, 0.0), s(0.0)), given, totals)
}

#[test]
fn shortest_family_wins_and_the_first_of_equals() {
    let path = pick([Some((3.0, 1.0, 1.0)), Some((1.0, 1.0, 1.0)), None, Some((1.0, 0.5, 0.5)), None, None])
        .unwrap();
    assert_eq!(path.path_type, PathType::LSL);
    assert_eq!(path.distances, [s(1.0), s(0.5), s(0.5)]);

    let tie = pick([None, Some((1.0, 2.0, 3.0)), Some((3.0, 2.0, 1.0)), Some((2.0, 2.0, 2.0)), None, None])
        .unwrap();
    assert_eq!(tie.path_type, PathType::RSL);
    assert_eq!(tie.distances, [s(1.0), s(2.0), s(3.0)]);
}

#[test]
fn no_family_gives_path_not_found() {
    assert_eq!(pick([None; 6]), Err(Error::PathNotFound));
}

#[test]
fn not_a_number_loses_to_a_number_and_alone_is_an_error() {
    let path = pick([Some((f64::NAN, 1.0, 1.0)), None, Some((5.0, 5.0, 5.0)), None, None, None]).unwrap();
    assert_eq!(path.path_type, PathType::LSR);
    assert_eq!(
        pick([Some((f64::NAN, 1.0, 1.0)), None, None, None, None, Some((1.0, f64::NAN, 1.0))]),
        Err(Error::NaNInCalculation)
    );
}

#[test]
fn walk_of_a_dubins_path_skips_an_empty_segment() {
    let path = pick([Some((0.0, 0.25, 0.1)), None, None, None, None, None]).unwrap();
    let mut walk = path.get_points_local(s(0.1));
    let mut rounds = 0;
    while let Some((cursor, stride)) = walk.pending() {
        walk.advance(s(f(cursor) + f(stride)));
        rounds += 1;
    }
    assert!(walk.is_finished());
    assert_eq!(rounds, 3);
    let offsets: Vec<(curved_paths::PathSegmentType, usize, f64)> =
        walk.samples().iter().map(|x| (x.segment, x.origin, f(x.offset))).collect();
    assert_eq!(
        offsets,
        vec![
            (curved_paths::PathSegmentType::Straight(s(0.25)), 0, 0.1),
            (curved_paths::PathSegmentType::Straight(s(0.25)), 0, 0.25),
            (curved_paths::PathSegmentType::Right(s(0.1)), 2, 0.1),
        ]
    );
}

#[test]
fn family_paths_over_a_grid_of_goals_end_at_the_goal() {
    let mut families = Vec::new();
    for ix in -4..=4 {
        for iy in -4..=4 {
            for ih in 0..8 {
                for &curve in [0.5, 1.0, 2.0].iter() {
                    let (x0, y0, h0) = (0.5, -0.25, 0.3);
                    let (x1, y1, h1) = (ix as f64 * 0.75, iy as f64 * 0.75, ih as f64 * PI / 4.0 - PI);
                    let path = solve((x0, y0), h0, (x1, y1), h1, curve).unwrap();
                    let points = lay_out(&path, 0.1);
                    let last = points[points.len() - 1];
                    let turns = (last.2 - h1) / TAU;
                    assert!(
                        (last.0 - x1).abs() < 1e-9
                            && (last.1 - y1).abs() < 1e-9
                            && (turns - turns.round()).abs() < 1e-9,
                        "to {:?} at {}: {:?} by {:?} {:?}",
                        (x1, y1, h1),
                        curve,
                        last,
                        path.path_type,
                        path.distances.map(f)
                    );
                    if !families.contains(&path.path_type) {
                        families.push(path.path_type);
                    }
                }
            }
        }
    }
    assert_eq!(families.len(), 6);
}
