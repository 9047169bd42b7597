use vstd::prelude::*;

use crate::error::Error;
use crate::graph::Graph;
use crate::graph::GraphView;
use crate::validation::length::edges_assignment_length_check;
use crate::validation::length::edges_faces_length_check;
use crate::validation::length::edges_fold_angle_length_check;
use crate::validation::length::edges_length_length_check;
use crate::validation::length::faces_edges_length_check;
use crate::validation::length::faces_faces_length_check;
use crate::validation::length::validate_edges_assignment_length;
use crate::validation::length::validate_edges_faces_length;
use crate::validation::length::validate_edges_fold_angle_length;
use crate::validation::length::validate_edges_length_length;
use crate::validation::length::validate_faces_edges_length;
use crate::validation::length::validate_faces_faces_length;
use crate::validation::length::validate_vertices_edges_length;
use crate::validation::length::validate_vertices_faces_length;
use crate::validation::length::validate_vertices_vertices_length;
use crate::validation::length::vertices_edges_length_check;
use crate::validation::length::vertices_faces_length_check;
use crate::validation::length::vertices_vertices_length_check;
use crate::validation::references::edge_orders_refs_check;
use crate::validation::references::edges_faces_refs_check;
use crate::validation::references::edges_vertices_refs_check;
use crate::validation::references::face_orders_refs_check;
use crate::validation::references::faces_edges_refs_check;
use crate::validation::references::faces_faces_refs_check;
use crate::validation::references::faces_vertices_refs_check;
use crate::validation::references::validate_edge_orders_indices;
use crate::validation::references::validate_edges_faces_indices;
use crate::validation::references::validate_edges_vertices_indices;
use crate::validation::references::validate_face_orders_indices;
use crate::validation::references::validate_faces_edges_indices;
use crate::validation::references::validate_faces_faces_indices;
use crate::validation::references::validate_faces_vertices_indices;
use crate::validation::references::validate_vertices_edges_indices;
use crate::validation::references::validate_vertices_faces_indices;
use crate::validation::references::validate_vertices_vertices_indices;
use crate::validation::references::vertices_edges_refs_check;
use crate::validation::references::vertices_faces_refs_check;
use crate::validation::references::vertices_vertices_refs_check;
use crate::validation::reflexive::edges_faces_reflexive_check;
use crate::validation::reflexive::faces_faces_reflexive_check;
use crate::validation::reflexive::validate_edges_faces_with_faces_edges;
use crate::validation::reflexive::validate_faces_faces_with_faces_faces;
use crate::validation::reflexive::validate_vertices_edges_with_edges_vertices;
use crate::validation::reflexive::validate_vertices_faces_with_faces_vertices;
use crate::validation::reflexive::validate_vertices_vertices_with_vertices_vertices;
use crate::validation::reflexive::vertices_edges_reflexive_check;
use crate::validation::reflexive::vertices_faces_reflexive_check;
use crate::validation::reflexive::vertices_vertices_reflexive_check;
use crate::validation::sign::sign_check;
use crate::validation::sign::validate_edges_assignment_with_edges_fold_angle;
use crate::validation::types::coordinates_check;
use crate::validation::types::edge_orders_check;
use crate::validation::types::edges_length_check;
use crate::validation::types::face_orders_check;
use crate::validation::types::faces_vertices_check;
use crate::validation::types::validate_edge_orders;
use crate::validation::types::validate_edges_length;
use crate::validation::types::validate_face_orders;
use crate::validation::types::validate_faces_vertices;
use crate::validation::types::validate_vertices_coordinates;
use crate::validation::winding::feff_winding_check;
use crate::validation::winding::fvfe_winding_check;
use crate::validation::winding::fvff_winding_check;
use crate::validation::winding::validate_faces_edges_and_faces_faces_winding;
use crate::validation::winding::validate_faces_vertices_and_faces_edges_winding;
use crate::validation::winding::validate_faces_vertices_and_faces_faces_winding;
use crate::validation::winding::validate_vertices_edges_and_vertices_faces_winding;
use crate::validation::winding::validate_vertices_vertices_and_vertices_edges_winding;
use crate::validation::winding::validate_vertices_vertices_and_vertices_faces_winding;
use crate::validation::winding::vevf_winding_check;
use crate::validation::winding::vvve_winding_check;
use crate::validation::winding::vvvf_winding_check;

verus! {

/// The whole ordered battery of graph checks, cheapest and most fundamental
/// first, short-circuiting on the first failure: entity-level type checks,
/// then array lengths, then index bounds, then dual-array reflexivity, then
/// rotational-order agreement, then the assignment/fold-angle sign rule.
pub open spec fn graph_validate_spec(g: GraphView) -> Result<(), Error> {
    let r0 = coordinates_check(g);
    if r0 is Err {
        r0
    } else {
        let r1 = edges_length_check(g);
        if r1 is Err {
            r1
        } else {
            let r2 = edge_orders_check(g);
            if r2 is Err {
                r2
            } else {
                let r3 = faces_vertices_check(g);
                if r3 is Err {
                    r3
                } else {
                    let r4 = face_orders_check(g);
                    if r4 is Err {
                        r4
                    } else {
                        let r5 = vertices_vertices_length_check(g);
                        if r5 is Err {
                            r5
                        } else {
                            let r6 = vertices_edges_length_check(g);
                            if r6 is Err {
                                r6
                            } else {
                                let r7 = vertices_faces_length_check(g);
                                if r7 is Err {
                                    r7
                                } else {
                                    let r8 = edges_faces_length_check(g);
                                    if r8 is Err {
                                        r8
                                    } else {
                                        let r9 = edges_assignment_length_check(g);
                                        if r9 is Err {
                                            r9
                                        } else {
                                            let r10 = edges_fold_angle_length_check(g);
                                            if r10 is Err {
                                                r10
                                            } else {
                                                let r11 = edges_length_length_check(g);
                                                if r11 is Err {
                                                    r11
                                                } else {
                                                    let r12 = faces_edges_length_check(g);
                                                    if r12 is Err {
                                                        r12
                                                    } else {
                                                        let r13 = faces_faces_length_check(g);
                                                        if r13 is Err {
                                                            r13
                                                        } else {
                                                            let r14 = vertices_vertices_refs_check(g);
                                                            if r14 is Err {
                                                                r14
                                                            } else {
                                                                let r15 = vertices_edges_refs_check(g);
                                                                if r15 is Err {
                                                                    r15
                                                                } else {
                                                                    let r16 = vertices_faces_refs_check(g);
                                                                    if r16 is Err {
                                                                        r16
                                                                    } else {
                                                                        let r17 = edges_vertices_refs_check(g);
                                                                        if r17 is Err {
                                                                            r17
                                                                        } else {
                                                                            let r18 = edges_faces_refs_check(g);
                                                                            if r18 is Err {
                                                                                r18
                                                                            } else {
                                                                                let r19 = edge_orders_refs_check(g);
                                                                                if r19 is Err {
                                                                                    r19
                                                                                } else {
                                                                                    let r20 = faces_vertices_refs_check(g);
                                                                                    if r20 is Err {
                                                                                        r20
                                                                                    } else {
                                                                                        let r21 = faces_edges_refs_check(g);
                                                                                        if r21 is Err {
                                                                                            r21
                                                                                        } else {
                                                                                            let r22 = faces_faces_refs_check(g);
                                                                                            if r22 is Err {
                                                                                                r22
                                                                                            } else {
                                                                                                let r23 = face_orders_refs_check(g);
                                                                                                if r23 is Err {
                                                                                                    r23
                                                                                                } else {
                                                                                                    let r24 = vertices_vertices_reflexive_check(g);
                                                                                                    if r24 is Err {
                                                                                                        r24
                                                                                                    } else {
                                                                                                        let r25 = vertices_edges_reflexive_check(g);
                                                                                                        if r25 is Err {
                                                                                                            r25
                                                                                                        } else {
                                                                                                            let r26 = vertices_faces_reflexive_check(g);
                                                                                                            if r26 is Err {
                                                                                                                r26
                                                                                                            } else {
                                                                                                                let r27 = edges_faces_reflexive_check(g);
                                                                                                                if r27 is Err {
                                                                                                                    r27
                                                                                                                } else {
                                                                                                                    let r28 = faces_faces_reflexive_check(g);
                                                                                                                    if r28 is Err {
                                                                                                                        r28
                                                                                                                    } else {
                                                                                                                        let r29 = vvve_winding_check(g);
                                                                                                                        if r29 is Err {
                                                                                                                            r29
                                                                                                                        } else {
                                                                                                                            let r30 = vvvf_winding_check(g);
                                                                                                                            if r30 is Err {
                                                                                                                                r30
                                                                                                                            } else {
                                                                                                                                let r31 = vevf_winding_check(g);
                                                                                                                                if r31 is Err {
                                                                                                                                    r31
                                                                                                                                } else {
                                                                                                                                    let r32 = fvfe_winding_check(g);
                                                                                                                                    if r32 is Err {
                                                                                                                                        r32
                                                                                                                                    } else {
                                                                                                                                        let r33 = fvff_winding_check(g);
                                                                                                                                        if r33 is Err {
                                                                                                                                            r33
                                                                                                                                        } else {
                                                                                                                                            let r34 = feff_winding_check(g);
                                                                                                                                            if r34 is Err {
                                                                                                                                                r34
                                                                                                                                            } else {
                                                                                                                                                sign_check(g)
                                                                                                                                            }
                                                                                                                                        }
                                                                                                                                    }
                                                                                                                                }
                                                                                                                            }
                                                                                                                        }
                                                                                                                    }
                                                                                                                }
                                                                                                            }
                                                                                                        }
                                                                                                    }
                                                                                                }
                                                                                            }
                                                                                        }
                                                                                    }
                                                                                }
                                                                            }
                                                                        }
                                                                    }
                                                                }
                                                            }
                                                        }
                                                    }
                                                }
                                            }
                                        }
                                    }
                                }
                            }
                        }
                    }
                }
            }
        }
    }
}

impl Graph {
    /// Check this graph's arrays against every consistency rule, reporting
    /// the first violated one.
    pub fn validate(&self) -> (r: Result<(), Error>)
        ensures
            r == graph_validate_spec(self@),
    {
        match validate_vertices_coordinates(self) {
            Err(e) => {
                return Err(e);
            },
            Ok(u) => {},
        }
        match validate_edges_length(self) {
            Err(e) => {
                return Err(e);
            },
            Ok(u) => {},
        }
        match validate_edge_orders(self) {
            Err(e) => {
                return Err(e);
            },
            Ok(u) => {},
        }
        match validate_faces_vertices(self) {
            Err(e) => {
                return Err(e);
            },
            Ok(u) => {},
        }
        match validate_face_orders(self) {
            Err(e) => {
                return Err(e);
            },
            Ok(u) => {},
        }
        match validate_vertices_vertices_length(self) {
            Err(e) => {
                return Err(e);
            },
            Ok(u) => {},
        }
        match validate_vertices_edges_length(self) {
            Err(e) => {
                return Err(e);
            },
            Ok(u) => {},
        }
        match validate_vertices_faces_length(self) {
            Err(e) => {
                return Err(e);
            },
            Ok(u) => {},
        }
        match validate_edges_faces_length(self) {
            Err(e) => {
                return Err(e);
            },
            Ok(u) => {},
        }
        match validate_edges_assignment_length(self) {
            Err(e) => {
                return Err(e);
            },
            Ok(u) => {},
        }
        match validate_edges_fold_angle_length(self) {
            Err(e) => {
                return Err(e);
            },
            Ok(u) => {},
        }
        match validate_edges_length_length(self) {
            Err(e) => {
                return Err(e);
            },
            Ok(u) => {},
        }
        match validate_faces_edges_length(self) {
            Err(e) => {
                return Err(e);
            },
            Ok(u) => {},
        }
        match validate_faces_faces_length(self) {
            Err(e) => {
                return Err(e);
            },
            Ok(u) => {},
        }
        match validate_vertices_vertices_indices(self) {
            Err(e) => {
                return Err(e);
            },
            Ok(u) => {},
        }
        match validate_vertices_edges_indices(self) {
            Err(e) => {
                return Err(e);
            },
            Ok(u) => {},
        }
        match validate_vertices_faces_indices(self) {
            Err(e) => {
                return Err(e);
            },
            Ok(u) => {},
        }
        match validate_edges_vertices_indices(self) {
            Err(e) => {
                return Err(e);
            },
            Ok(u) => {},
        }
        match validate_edges_faces_indices(self) {
            Err(e) => {
                return Err(e);
            },
            Ok(u) => {},
        }
        match validate_edge_orders_indices(self) {
            Err(e) => {
                return Err(e);
            },
            Ok(u) => {},
        }
        match validate_faces_vertices_indices(self) {
            Err(e) => {
                return Err(e);
            },
            Ok(u) => {},
        }
        match validate_faces_edges_indices(self) {
            Err(e) => {
                return Err(e);
            },
            Ok(u) => {},
        }
        match validate_faces_faces_indices(self) {
            Err(e) => {
                return Err(e);
            },
            Ok(u) => {},
        }
        match validate_face_orders_indices(self) {
            Err(e) => {
                return Err(e);
            },
            Ok(u) => {},
        }
        match validate_vertices_vertices_with_vertices_vertices(self) {
            Err(e) => {
                return Err(e);
            },
            Ok(u) => {},
        }
        match validate_vertices_edges_with_edges_vertices(self) {
            Err(e) => {
                return Err(e);
            },
            Ok(u) => {},
        }
        match validate_vertices_faces_with_faces_vertices(self) {
            Err(e) => {
                return Err(e);
            },
            Ok(u) => {},
        }
        match validate_edges_faces_with_faces_edges(self) {
            Err(e) => {
                return Err(e);
            },
            Ok(u) => {},
        }
        match validate_faces_faces_with_faces_faces(self) {
            Err(e) => {
                return Err(e);
            },
            Ok(u) => {},
        }
        match validate_vertices_vertices_and_vertices_edges_winding(self) {
            Err(e) => {
                return Err(e);
            },
            Ok(u) => {},
        }
        match validate_vertices_vertices_and_vertices_faces_winding(self) {
            Err(e) => {
                return Err(e);
            },
            Ok(u) => {},
        }
        match validate_vertices_edges_and_vertices_faces_winding(self) {
            Err(e) => {
                return Err(e);
            },
            Ok(u) => {},
        }
        match validate_faces_vertices_and_faces_edges_winding(self) {
            Err(e) => {
                return Err(e);
            },
            Ok(u) => {},
        }
        match validate_faces_vertices_and_faces_faces_winding(self) {
            Err(e) => {
                return Err(e);
            },
            Ok(u) => {},
        }
        match validate_faces_edges_and_faces_faces_winding(self) {
            Err(e) => {
                return Err(e);
            },
            Ok(u) => {},
        }
        validate_edges_assignment_with_edges_fold_angle(self)
    }
}

} // verus!
